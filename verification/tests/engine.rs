//! Tests of the composition engine: fault barrier, alert state machine,
//! action registry, scheduler and protocol.

use bars::alert::AlertState;
use bars::barrier::{guard, BarError};
use bars::protocol::{parse_click, render_line};
use bars::registry::ActionRegistry;
use bars::sched::Scheduler;
use bars::segment::{MouseButton, Segment};

#[test]
fn guard_passes_success_through() {
    let seg = Segment::colored(String::from("ok"), String::from("#123456"));
    let out = guard(Ok(seg));
    assert_eq!(out.text, "ok");
    assert_eq!(out.color.as_deref(), Some("#123456"));
    assert!(out.clicks.is_empty());
}

#[test]
fn guard_turns_failure_into_error_segment() {
    let out = guard(Err(BarError::new(String::from("mixer gone"))));
    assert_eq!(out.text, "mixer gone");
    assert_eq!(out.color.as_deref(), Some("#ff5555"));
    assert!(out.clicks.is_empty());
}

#[test]
fn alert_fires_once_per_bad_period() {
    let mut alert = AlertState::new();
    let fired: Vec<bool> = [true, true, false, true]
        .iter()
        .map(|&c| alert.step(c))
        .collect();
    assert_eq!(fired, vec![true, false, false, true]);
    assert_eq!(fired.iter().filter(|&&f| f).count(), 2);
}

#[test]
fn alert_stays_quiet_while_condition_false() {
    let mut alert = AlertState::new();
    assert!(!alert.step(false));
    assert!(!alert.step(false));
    assert!(alert.step(true));
}

#[test]
fn dispatch_unknown_on_empty_registry_is_noop() {
    let reg: ActionRegistry<u32> = ActionRegistry::new();
    assert!(reg.dispatch("unknown").is_none());
    // still usable and still empty afterwards
    assert!(reg.dispatch("unknown").is_none());
    assert!(reg.dispatch("").is_none());
}

#[test]
fn register_twice_last_write_wins() {
    let mut reg: ActionRegistry<u32> = ActionRegistry::new();
    reg.register(String::from("x"), 1);
    reg.register(String::from("x"), 2);
    assert_eq!(reg.dispatch("x"), Some(&2));
}

#[test]
fn registry_lookup_is_by_exact_name() {
    let mut reg: ActionRegistry<&'static str> = ActionRegistry::new();
    reg.register(String::from("vol_up"), "up");
    reg.register(String::from("vol_down"), "down");
    assert_eq!(reg.dispatch("vol_up"), Some(&"up"));
    assert_eq!(reg.dispatch("vol_down"), Some(&"down"));
    assert_eq!(reg.dispatch("vol_u"), None);
    assert_eq!(reg.dispatch("vol_upp"), None);
}

#[test]
fn scheduler_polls_each_source_independently() {
    let mut sched = Scheduler::new();
    let a = sched.register(1);
    let b = sched.register(2);
    let mut polls_a = 0;
    let mut polls_b = 0;
    for t in 1..=4u64 {
        let due = sched.due_at(t);
        if due.contains(&a) {
            polls_a += 1;
        }
        if due.contains(&b) {
            polls_b += 1;
        }
    }
    assert_eq!(polls_a, 4);
    assert_eq!(polls_b, 2);
}

#[test]
fn scheduler_due_in_registration_order() {
    let mut sched = Scheduler::new();
    sched.register(2);
    sched.register(1);
    sched.register(2);
    assert_eq!(sched.due_at(2), vec![0, 1, 2]);
    assert_eq!(sched.due_at(3), vec![1]);
    assert_eq!(sched.due_at(0), Vec::<usize>::new());
}

#[test]
fn compose_keeps_registration_order_whatever_updated() {
    let mut sched = Scheduler::new();
    let a = sched.register(1);
    let b = sched.register(2);
    let c = sched.register(3);
    sched.store(b, Segment::new(String::from("beta")));
    sched.store(c, Segment::new(String::from("gamma")));
    sched.store(a, Segment::new(String::from("alpha")));
    let line = sched.compose();
    let texts: Vec<&str> = line.iter().map(|s| s.text.as_str()).collect();
    assert_eq!(texts, vec!["alpha", "beta", "gamma"]);
    // a later update of a middle source moves nothing
    sched.store(b, Segment::new(String::from("BETA")));
    let line = sched.compose();
    let texts: Vec<&str> = line.iter().map(|s| s.text.as_str()).collect();
    assert_eq!(texts, vec!["alpha", "BETA", "gamma"]);
}

#[test]
fn render_line_joins_texts_in_order() {
    let segs = vec![
        Segment::new(String::from("one")),
        Segment::new(String::from("two")),
        Segment::new(String::from("three")),
    ];
    assert_eq!(render_line(&segs), "one two three");
    assert_eq!(render_line(&Vec::new()), "");
}

#[test]
fn parse_click_reads_button_and_action() {
    assert_eq!(
        parse_click("1 mus_prev"),
        Some((MouseButton::Left, String::from("mus_prev")))
    );
    assert_eq!(
        parse_click("5 vol_down"),
        Some((MouseButton::ScrollDown, String::from("vol_down")))
    );
}

#[test]
fn parse_click_drops_malformed_lines() {
    assert_eq!(parse_click(""), None);
    assert_eq!(parse_click("1 "), None);
    assert_eq!(parse_click("9 vol_up"), None);
    assert_eq!(parse_click("1vol_up"), None);
    assert_eq!(parse_click("left vol_up"), None);
}

#[test]
fn segment_click_lookup_finds_bound_action() {
    let seg = Segment::new(String::from("vol"))
        .with_click(MouseButton::ScrollUp, String::from("vol_up"))
        .with_click(MouseButton::Middle, String::from("vol_mute"));
    assert_eq!(
        seg.action_for(MouseButton::ScrollUp).map(String::as_str),
        Some("vol_up")
    );
    assert_eq!(
        seg.action_for(MouseButton::Middle).map(String::as_str),
        Some("vol_mute")
    );
    assert_eq!(seg.action_for(MouseButton::Right), None);
}
