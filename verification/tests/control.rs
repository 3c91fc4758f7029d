//! Tests of the volume and device-control decisions and of the segment
//! producers' compute halves.

use bars::alert::AlertState;
use bars::segment::MouseButton;
use bars::segments::{
    battery_icon, battery_poll, battery_segment, brightness_segment, disk_segment,
    keyboard_segment, load_segment, memory_segment, music_segment, network_segment,
    temp_icon, temp_segment, volume_segment,
};
use bars::volume::{
    icon, menu_choice, menu_feed, mute, set_device_notices, SetDefaultOutcome,
};

#[test]
fn add_round_trip_within_bounds() {
    let up = bars::volume::add(32768, 0, 65536, 5);
    assert_eq!(up, 32768 + 3277);
    let back = bars::volume::add(up, 0, 65536, -5);
    assert_eq!(back, 32768);
}

#[test]
fn add_clamps_at_the_bounds() {
    assert_eq!(bars::volume::add(65536, 0, 65536, 100), 65536);
    assert_eq!(bars::volume::add(0, 0, 65536, -100), 0);
    assert_eq!(bars::volume::add(65500, 0, 65536, 5), 65536);
}

#[test]
fn add_handles_degenerate_and_negative_ranges() {
    assert_eq!(bars::volume::add(7, 7, 7, 50), 7);
    assert_eq!(bars::volume::add(0, -100, 100, 1), 2);
    assert_eq!(bars::volume::add(0, -100, 100, -1), -2);
}

#[test]
fn mute_toggle_twice_restores_switch() {
    assert_eq!(mute(mute(0)), 0);
    assert_eq!(mute(mute(1)), 1);
    assert_eq!(mute(0), 1);
    assert_eq!(mute(1), 0);
}

#[test]
fn icon_picks_level_band() {
    assert_eq!(icon(0), "\u{f026}");
    assert_eq!(icon(29), "\u{f026}");
    assert_eq!(icon(30), "\u{f027}");
    assert_eq!(icon(59), "\u{f027}");
    assert_eq!(icon(60), "\u{f028}");
    assert_eq!(icon(100), "\u{f028}");
}

#[test]
fn device_notices_cover_each_failure_once() {
    let notices = set_device_notices(
        SetDefaultOutcome::Refused,
        vec![
            Ok(()),
            Err(String::from("stream one stuck")),
            Ok(()),
            Err(String::from("stream two stuck")),
        ],
    );
    assert_eq!(notices.len(), 3);
    assert_eq!(notices[0].title, "Couldn't set new device");
    assert_eq!(notices[0].body, None);
    assert_eq!(notices[1].title, "Error changing sink for applicaiton");
    assert_eq!(notices[1].body.as_deref(), Some("stream one stuck"));
    assert_eq!(notices[2].body.as_deref(), Some("stream two stuck"));
}

#[test]
fn device_notices_empty_when_all_goes_well() {
    let notices = set_device_notices(SetDefaultOutcome::Accepted, vec![Ok(()), Ok(())]);
    assert!(notices.is_empty());
}

#[test]
fn device_notice_carries_failure_diagnostic() {
    let notices = set_device_notices(
        SetDefaultOutcome::Failed(String::from("no daemon")),
        Vec::new(),
    );
    assert_eq!(notices.len(), 1);
    assert_eq!(notices[0].title, "Error setting default device");
    assert_eq!(notices[0].body.as_deref(), Some("no daemon"));
}

#[test]
fn menu_feed_lists_id_then_description() {
    let devices = vec![
        (String::from("sink0"), String::from("Speakers")),
        (String::from("sink1"), String::from("Headphones")),
    ];
    assert_eq!(menu_feed(&devices), "sink0\nSpeakers\nsink1\nHeadphones\n");
    assert_eq!(menu_feed(&Vec::new()), "");
}

#[test]
fn menu_choice_trims_and_treats_empty_as_no_change() {
    assert_eq!(menu_choice("sink1\n"), Some(String::from("sink1")));
    assert_eq!(menu_choice("  sink with spaces \n"), Some(String::from("sink with spaces")));
    assert_eq!(menu_choice(""), None);
    assert_eq!(menu_choice(" \n\t\r"), None);
}

#[test]
fn keyboard_segment_reads_second_field() {
    let seg = keyboard_segment("xkb:us::eng\n");
    assert_eq!(seg.text, "\u{2328} us");
    let seg = keyboard_segment("typing-booster\n");
    assert_eq!(seg.text, "\u{2328} N/A");
}

#[test]
fn network_segment_shows_name_kind_and_status() {
    let seg = network_segment("home:uuid:802-11-wireless:wlan0", "full\n");
    assert_eq!(seg.text, "\u{f1eb} home");
    assert_eq!(seg.color.as_deref(), Some("#99ee99"));
    let seg = network_segment("office:uuid:802-3-ethernet:eth0", "limited\n");
    assert_eq!(seg.text, "\u{f0e8} office!");
    let seg = network_segment("", "unknown\n");
    assert_eq!(seg.text, "\u{f1eb}\u{fe56} Disconnected?");
    assert_eq!(seg.color.as_deref(), Some("#BB5555"));
}

#[test]
fn temp_segment_picks_band_icon() {
    assert_eq!(temp_icon(45), "\u{f2cb}");
    assert_eq!(temp_icon(65), "\u{f2ca}");
    assert_eq!(temp_icon(75), "\u{f2c9}");
    assert_eq!(temp_icon(85), "\u{f2c8}");
    assert_eq!(temp_icon(95), "\u{f2c7}");
    let seg = temp_segment(52, "52.4");
    assert_eq!(seg.text, "\u{f2cb} 52.4 \u{b0}C");
    assert_eq!(seg.color.as_deref(), Some("#10ff10"));
}

#[test]
fn simple_probe_segments_compose_their_texts() {
    assert_eq!(disk_segment("213.4 GB").text, "\u{f0a0} 213.4 GB");
    assert_eq!(load_segment("0.52").text, "\u{f0e4} 0.52");
    assert_eq!(memory_segment("7.2").text, "\u{f2db} 7.2 G");
}

#[test]
fn battery_segment_shows_band_marker_and_percent() {
    assert_eq!(battery_icon(9, false), ("\u{f244}", "#FF4000"));
    assert_eq!(battery_icon(35, false), ("\u{f243}", "#FFAE00"));
    assert_eq!(battery_icon(55, false), ("\u{f242}", "#FFF600"));
    assert_eq!(battery_icon(70, false), ("\u{f241}", "#A8FF00"));
    assert_eq!(battery_icon(85, false), ("\u{f240}", "#50FF00"));
    assert_eq!(battery_icon(100, true), ("", "#50FF00"));
    assert_eq!(battery_icon(100, false), ("\u{f240}", "#50FF00"));
    let seg = battery_segment(85, false);
    assert_eq!(seg.text, "\u{f240} 85%");
    let seg = battery_segment(85, true);
    assert_eq!(seg.text, "\u{f0e7}\u{f240} 85%");
    let seg = battery_segment(7, false);
    assert_eq!(seg.text, "\u{f244} 7%");
    assert_eq!(seg.color.as_deref(), Some("#FF4000"));
}

#[test]
fn battery_poll_notifies_once_per_low_period() {
    let mut alert = AlertState::new();
    let (fire, _) = battery_poll(&mut alert, 9, false);
    assert!(fire);
    let (fire, _) = battery_poll(&mut alert, 8, false);
    assert!(!fire);
    let (fire, _) = battery_poll(&mut alert, 8, true);
    assert!(!fire);
    let (fire, seg) = battery_poll(&mut alert, 10, false);
    assert!(fire);
    assert_eq!(seg.text, "\u{f244} 10%");
}

#[test]
fn music_segment_shows_state_and_binds_clicks() {
    let seg = music_segment(Some(true), "Artist", "Title");
    assert_eq!(seg.text, "\u{f04b}  Artist - Title");
    assert_eq!(seg.color.as_deref(), Some("#9090ff"));
    assert_eq!(
        seg.action_for(MouseButton::Left).map(String::as_str),
        Some("mus_prev")
    );
    assert_eq!(
        seg.action_for(MouseButton::Middle).map(String::as_str),
        Some("mus_toggle")
    );
    assert_eq!(
        seg.action_for(MouseButton::Right).map(String::as_str),
        Some("mus_next")
    );
    let seg = music_segment(Some(false), "A", "B");
    assert_eq!(seg.text, "\u{f04c}  A - B");
    let seg = music_segment(None, "", "");
    assert_eq!(seg.text, "");
    assert!(seg.color.is_none());
    assert!(seg.clicks.is_empty());
}

#[test]
fn volume_segment_shows_mute_or_level() {
    let seg = volume_segment(true, 40);
    assert_eq!(seg.text, "\u{1f507} MUTE");
    let seg = volume_segment(false, 40);
    assert_eq!(seg.text, "\u{f027} 40%");
    assert_eq!(
        seg.action_for(MouseButton::ScrollUp).map(String::as_str),
        Some("vol_up")
    );
    assert_eq!(
        seg.action_for(MouseButton::ScrollDown).map(String::as_str),
        Some("vol_down")
    );
    assert_eq!(
        seg.action_for(MouseButton::Middle).map(String::as_str),
        Some("vol_mute")
    );
    assert_eq!(
        seg.action_for(MouseButton::Left).map(String::as_str),
        Some("device_menu")
    );
}

#[test]
fn brightness_segment_shows_percent() {
    let seg = brightness_segment(63);
    assert_eq!(seg.text, "\u{2600} 63%");
    assert_eq!(seg.color.as_deref(), Some("#ffff55"));
    assert_eq!(
        seg.action_for(MouseButton::ScrollUp).map(String::as_str),
        Some("bright_up")
    );
    assert_eq!(
        seg.action_for(MouseButton::ScrollDown).map(String::as_str),
        Some("bright_down")
    );
}

#[test]
fn text_helpers_split_and_format() {
    assert_eq!(bars::text::dec_u8(0), "0");
    assert_eq!(bars::text::dec_u8(7), "7");
    assert_eq!(bars::text::dec_u8(42), "42");
    assert_eq!(bars::text::dec_u8(100), "100");
    assert_eq!(bars::text::dec_u8(255), "255");
    assert_eq!(bars::text::split_colon("a:b::c"), vec!["a", "b", "", "c"]);
    assert_eq!(bars::text::split_colon(""), vec![""]);
    assert_eq!(bars::text::trim_end("abc \n"), "abc");
    assert!(bars::text::str_eq("abc", "abc"));
    assert!(!bars::text::str_eq("abc", "abd"));
    assert!(!bars::text::str_eq("abc", "ab"));
}
