//! Volume and output-device control decisions.
//!
//! The mixer and the sound server are hardware and daemons; the
//! surrounding binary reads their state, lets these functions decide the
//! new values and the notices to show, and writes the results back. Every
//! function here is total: failure handling around the hardware calls is
//! the caller's, and is best-effort by design.

use vstd::prelude::*;

use crate::notify::{Notice, NoticeView};
use crate::text::{line_space, trim_back, trim_front};

verus! {

/// One percent of the range `max - min`, scaled by `diff` and rounded to
/// the nearest whole step, ties away from zero: the volume change that a
/// difference of `diff` percent asks for.
pub open spec fn round_step(n: int) -> int {
    if n >= 0 {
        (n + 50) / 100
    } else {
        -((-n + 50) / 100)
    }
}

/// `v` forced into the interval `[min, max]`.
pub open spec fn clamped(v: int, min: int, max: int) -> int {
    if v < min {
        min
    } else if v > max {
        max
    } else {
        v
    }
}

/// The volume after adjusting `current` by `diff` percent of the range
/// `[min, max]`, clamped to that range.
pub open spec fn adjusted(current: int, min: int, max: int, diff: int) -> int {
    clamped(current + round_step((max - min) * diff), min, max)
}

/// Adjusts a playback volume by `diff` percent of the valid range.
/// The result is the current volume moved by the rounded step and clamped
/// to `[min, max]`; adjusting past a bound only ever stops at the bound.
pub fn add(current: i64, min: i64, max: i64, diff: i8) -> (v: i64)
    requires
        min <= max,
        min <= current <= max,
    ensures
        v as int == adjusted(current as int, min as int, max as int, diff as int),
        min <= v <= max,
{
    let range: u128 = (max as i128 - min as i128) as u128;
    let d: u128 = if diff >= 0 {
        diff as u128
    } else {
        (-(diff as i32)) as u128
    };
    proof {
        assert(range as int == max as int - min as int);
        assert(range <= 0xffff_ffff_ffff_ffffu128);
        assert(d <= 128);
        assert(range as int * (d as int) <= 0xffff_ffff_ffff_ffff * 128) by (nonlinear_arith)
            requires
                0 <= range as int <= 0xffff_ffff_ffff_ffff,
                0 <= d as int <= 128,
        ;
    }
    let mag: u128 = range * d;
    let rounded: u128 = (mag + 50) / 100;
    let step: i128 = if diff >= 0 {
        rounded as i128
    } else {
        -(rounded as i128)
    };
    proof {
        let n = (max as int - min as int) * (diff as int);
        if diff >= 0 {
            assert(d as int == diff as int);
            assert(n == mag as int && n >= 0) by (nonlinear_arith)
                requires
                    max as int >= min as int,
                    (diff as int) >= 0,
                    n == (max as int - min as int) * (diff as int),
                    mag as int == (max as int - min as int) * (diff as int),
            ;
        } else {
            assert(d as int == -(diff as int));
            assert(n == -(mag as int) && n <= 0) by (nonlinear_arith)
                requires
                    max as int >= min as int,
                    (diff as int) < 0,
                    n == (max as int - min as int) * (diff as int),
                    mag as int == (max as int - min as int) * (-(diff as int)),
            ;
        }
        assert(step as int == round_step(n));
    }
    let target: i128 = current as i128 + step;
    let v: i128 = if target < min as i128 {
        min as i128
    } else if target > max as i128 {
        max as i128
    } else {
        target
    };
    v as i64
}

/// Within the clamp bounds, an adjustment is undone exactly by the
/// opposite adjustment: when neither the step out nor the way back hits a
/// bound, adjusting by `diff` and then by `-diff` restores the volume.
pub proof fn lemma_add_round_trip(current: int, min: int, max: int, diff: int)
    requires
        min <= current <= max,
        min <= current + round_step((max - min) * diff) <= max,
    ensures
        adjusted(adjusted(current, min, max, diff), min, max, -diff) == current,
{
    let n = (max - min) * diff;
    assert((max - min) * -diff == -n) by (nonlinear_arith)
        requires
            n == (max - min) * diff,
    ;
    assert(round_step(-n) == -round_step(n));
}

/// Adjusting upward while already at the top of the range is a no-op
/// beyond the clamp: the volume stays at `max`.
pub proof fn lemma_add_no_op_at_max(min: int, max: int, diff: int)
    requires
        min <= max,
        diff >= 0,
    ensures
        adjusted(max, min, max, diff) == max,
{
    assert((max - min) * diff >= 0) by (nonlinear_arith)
        requires
            max - min >= 0,
            diff >= 0,
    ;
}

/// Adjusting downward while already at the bottom of the range stays at
/// `min`, the mirror of the clamp at the top.
pub proof fn lemma_add_no_op_at_min(min: int, max: int, diff: int)
    requires
        min <= max,
        diff <= 0,
    ensures
        adjusted(min, min, max, diff) == min,
{
    assert((max - min) * diff <= 0) by (nonlinear_arith)
        requires
            max - min >= 0,
            diff <= 0,
    ;
}

/// The playback switch value after one mute toggle: the mixer reports the
/// switch as an integer, zero meaning muted, and the toggle writes back
/// the opposite state.
pub open spec fn toggled(switch: int) -> int {
    if switch == 0 {
        1
    } else {
        0
    }
}

/// Decides the new playback switch value from the current one: a muted
/// switch (zero) is turned on, anything else is muted.
pub fn mute(switch: i32) -> (r: i32)
    ensures
        r as int == toggled(switch as int),
{
    if switch == 0 {
        1
    } else {
        0
    }
}

/// Toggling the mute switch twice returns it to its original state, for
/// the two values the mixer actually uses.
pub proof fn lemma_mute_round_trip(switch: int)
    requires
        switch == 0 || switch == 1,
    ensures
        toggled(toggled(switch)) == switch,
{
}

/// The volume icon for a level given in percent: muted-looking below
/// thirty, one wave below sixty, two waves from sixty up.
pub open spec fn icon_of(vol: int) -> Seq<char> {
    if vol <= 29 {
        "\u{f026}"@
    } else if vol <= 59 {
        "\u{f027}"@
    } else {
        "\u{f028}"@
    }
}

/// The volume icon for a level given in percent.
pub fn icon(vol: u8) -> (r: &'static str)
    ensures
        r@ == icon_of(vol as int),
{
    match vol {
        0..=29 => "\u{f026}",
        30..=59 => "\u{f027}",
        _ => "\u{f028}",
    }
}

/// What the sound server answered when asked to make a device the default
/// output: it accepted, it refused, or the request itself failed with a
/// diagnostic.
pub enum SetDefaultOutcome {
    Accepted,
    Refused,
    Failed(String),
}

/// The notice owed for the set-default answer: nothing on acceptance, a
/// bare title on refusal, the diagnostic as body on failure.
pub open spec fn set_default_notice_of(outcome: SetDefaultOutcome) -> Option<NoticeView> {
    match outcome {
        SetDefaultOutcome::Accepted => None,
        SetDefaultOutcome::Refused => Some(
            NoticeView { title: "Couldn't set new device"@, body: None },
        ),
        SetDefaultOutcome::Failed(m) => Some(
            NoticeView { title: "Error setting default device"@, body: Some(m@) },
        ),
    }
}

/// The notices owed for the per-stream reassignment outcomes, in stream
/// order: one per failed move, none for a move that went through.
pub open spec fn move_notices_of(moves: Seq<Result<(), String>>) -> Seq<NoticeView>
    decreases moves.len(),
{
    if moves.len() == 0 {
        Seq::empty()
    } else {
        move_notices_of(moves.drop_last()) + match moves.last() {
            Ok(u) => Seq::<NoticeView>::empty(),
            Err(m) => seq![
                NoticeView { title: "Error changing sink for applicaiton"@, body: Some(m@) },
            ],
        }
    }
}

/// Every notice a device switch owes, set-default answer first, then one
/// per failed stream move in stream order.
pub open spec fn device_notices_of(
    outcome: SetDefaultOutcome,
    moves: Seq<Result<(), String>>,
) -> Seq<NoticeView> {
    (match set_default_notice_of(outcome) {
        Some(n) => seq![n],
        None => Seq::empty(),
    }) + move_notices_of(moves)
}

/// Decides the notices for a device switch: the caller asks the sound
/// server to set the default output, reassigns each active stream, and
/// hands the outcomes here. A failure costs one notice and nothing more;
/// in particular one stream's failed move never suppresses the notices,
/// or the moves, of the streams after it.
pub fn set_device_notices(outcome: SetDefaultOutcome, moves: Vec<Result<(), String>>) -> (r:
    Vec<Notice>)
    ensures
        Seq::new(r@.len(), |i: int| r@[i]@) == device_notices_of(outcome, moves@),
{
    let mut r: Vec<Notice> = Vec::new();
    match outcome {
        SetDefaultOutcome::Accepted => {},
        SetDefaultOutcome::Refused => {
            r.push(
                Notice { title: String::from_str("Couldn't set new device"), body: None },
            );
        },
        SetDefaultOutcome::Failed(m) => {
            r.push(
                Notice {
                    title: String::from_str("Error setting default device"),
                    body: Some(m),
                },
            );
        },
    }
    let ghost head: Seq<NoticeView> = Seq::new(r@.len(), |i: int| r@[i]@);
    let n = moves.len();
    let mut k: usize = 0;
    while k < n
        invariant
            k <= n,
            n == moves.len(),
            Seq::new(r@.len(), |i: int| r@[i]@) =~~= head + move_notices_of(
                moves@.take(k as int),
            ),
        decreases n - k,
    {
        let ghost prefix = moves@.take(k as int);
        let ghost rv0 = Seq::new(r@.len(), |i: int| r@[i]@);
        proof {
            assert(moves@.take(k as int + 1).drop_last() =~= prefix);
            assert(moves@.take(k as int + 1).last() == moves@[k as int]);
        }
        match &moves[k] {
            Ok(u) => {
                proof {
                    assert(move_notices_of(moves@.take(k as int + 1)) =~~= move_notices_of(
                        prefix,
                    ));
                }
            },
            Err(m) => {
                let notice = Notice {
                    title: String::from_str("Error changing sink for applicaiton"),
                    body: Some(m.clone()),
                };
                proof {
                    assert(moves@[k as int] matches Err(pay) && notice@ =~~= NoticeView {
                        title: "Error changing sink for applicaiton"@,
                        body: Some(pay@),
                    });
                    assert(move_notices_of(moves@.take(k as int + 1)) =~~= move_notices_of(
                        prefix,
                    ).push(notice@));
                }
                r.push(notice);
                proof {
                    assert(Seq::new(r@.len(), |i: int| r@[i]@) =~~= rv0.push(notice@));
                }
            },
        }
        k = k + 1;
        proof {
            assert(Seq::new(r@.len(), |i: int| r@[i]@) =~~= head + move_notices_of(
                moves@.take(k as int),
            ));
        }
    }
    proof {
        assert(moves@.take(n as int) =~= moves@);
        assert(Seq::new(r@.len(), |i: int| r@[i]@) =~~= device_notices_of(outcome, moves@));
    }
    r
}

/// What the device picker is fed: for each output device its identifier
/// line, then its description line.
pub open spec fn feed_of(devices: Seq<(String, String)>) -> Seq<char>
    decreases devices.len(),
{
    if devices.len() == 0 {
        Seq::empty()
    } else {
        feed_of(devices.drop_last()) + devices.last().0@ + "\n"@ + devices.last().1@ + "\n"@
    }
}

/// Builds the newline-delimited text fed to the interactive device picker
/// from the (identifier, description) pairs of the known output devices.
pub fn menu_feed(devices: &Vec<(String, String)>) -> (r: String)
    ensures
        r@ == feed_of(devices@),
{
    let mut r = String::new();
    let n = devices.len();
    let mut k: usize = 0;
    while k < n
        invariant
            k <= n,
            n == devices.len(),
            r@ == feed_of(devices@.take(k as int)),
        decreases n - k,
    {
        proof {
            assert(devices@.take(k as int + 1).drop_last() =~= devices@.take(k as int));
            assert(devices@.take(k as int + 1).last() == devices@[k as int]);
        }
        r.append(devices[k].0.as_str());
        r.append("\n");
        r.append(devices[k].1.as_str());
        r.append("\n");
        k = k + 1;
    }
    proof {
        assert(devices@.take(n as int) =~= devices@);
    }
    r
}

/// The picker's selection, trimmed of surrounding whitespace.
pub open spec fn selection_of(s: Seq<char>) -> Seq<char> {
    trim_back(trim_front(s))
}

/// Reads the picker's answer: the selected line with surrounding
/// whitespace trimmed, or nothing when the trimmed answer is empty. An
/// empty selection is a valid outcome and means no change of device.
pub fn menu_choice(output: &str) -> (r: Option<String>)
    ensures
        match r {
            Some(sel) => sel@ == selection_of(output@) && sel@.len() > 0,
            None => selection_of(output@).len() == 0,
        },
{
    let n = output.unicode_len();
    let mut lo: usize = 0;
    proof {
        assert(output@.skip(0) =~= output@);
    }
    while lo < n && line_space(output.get_char(lo))
        invariant
            lo <= n,
            n == output@.len(),
            trim_front(output@) == trim_front(output@.skip(lo as int)),
        decreases n - lo,
    {
        proof {
            assert(output@.skip(lo as int)[0] == output@[lo as int]);
            assert(output@.skip(lo as int).drop_first() =~= output@.skip(lo as int + 1));
        }
        lo = lo + 1;
    }
    proof {
        if lo == n {
            assert(output@.skip(n as int) =~= Seq::<char>::empty());
        }
        assert(trim_front(output@) == output@.skip(lo as int));
    }
    let ghost t: Seq<char> = output@.skip(lo as int);
    let mut hi: usize = n;
    proof {
        assert(t.take(n as int - lo as int) =~= t);
    }
    while hi > lo && line_space(output.get_char(hi - 1))
        invariant
            lo <= hi <= n,
            n == output@.len(),
            t == output@.skip(lo as int),
            trim_back(t) == trim_back(t.take(hi as int - lo as int)),
        decreases hi,
    {
        proof {
            let w = t.take(hi as int - lo as int);
            assert(w.last() == output@[hi as int - 1]);
            assert(w.drop_last() =~= t.take(hi as int - 1 - lo as int));
        }
        hi = hi - 1;
    }
    proof {
        if hi == lo {
            assert(t.take(0) =~= Seq::<char>::empty());
        }
        assert(trim_back(t) == t.take(hi as int - lo as int));
        assert(t.take(hi as int - lo as int) =~= output@.subrange(lo as int, hi as int));
    }
    if hi == lo {
        None
    } else {
        let sel = output.substring_char(lo, hi).to_owned();
        Some(sel)
    }
}

} // verus!
