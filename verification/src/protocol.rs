//! The wire edge of the bar: composing the outgoing line and reading
//! incoming click events.
//!
//! The host's own record format is a fixed outside contract; what is
//! decided here is the part the host leaves to the bar: the segments'
//! order in the one emitted line, and how a click event names a mouse
//! button and an action.

use vstd::prelude::*;

use crate::segment::{MouseButton, Segment};

verus! {

/// The text of the composed line: every segment's text in order, one
/// space between neighbours.
pub open spec fn rendered(segs: Seq<Segment>) -> Seq<char>
    decreases segs.len(),
{
    if segs.len() == 0 {
        Seq::empty()
    } else if segs.len() == 1 {
        segs[0].text@
    } else {
        rendered(segs.drop_last()) + " "@ + segs.last().text@
    }
}

/// Flattens the composed line to one string of text, keeping the
/// segments' registration order.
pub fn render_line(segs: &Vec<Segment>) -> (r: String)
    ensures
        r@ == rendered(segs@),
{
    let mut r = String::new();
    let n = segs.len();
    let mut k: usize = 0;
    while k < n
        invariant
            k <= n,
            n == segs@.len(),
            r@ == rendered(segs@.take(k as int)),
        decreases n - k,
    {
        proof {
            assert(segs@.take(k as int + 1).drop_last() =~= segs@.take(k as int));
            assert(segs@.take(k as int + 1).last() == segs@[k as int]);
            assert(segs@.take(k as int + 1)[0] == segs@[0]);
        }
        if k > 0 {
            r.append(" ");
        }
        r.append(segs[k].text.as_str());
        k = k + 1;
    }
    proof {
        assert(segs@.take(n as int) =~= segs@);
    }
    r
}

/// The mouse button a click event's digit names, if any.
pub open spec fn button_of(c: char) -> Option<MouseButton> {
    if c == '1' {
        Some(MouseButton::Left)
    } else if c == '2' {
        Some(MouseButton::Middle)
    } else if c == '3' {
        Some(MouseButton::Right)
    } else if c == '4' {
        Some(MouseButton::ScrollUp)
    } else if c == '5' {
        Some(MouseButton::ScrollDown)
    } else {
        None
    }
}

/// What a click event line decodes to: a button digit, one space, then a
/// non-empty action name. Anything else is malformed and decodes to
/// nothing.
pub open spec fn click_of(line: Seq<char>) -> Option<(MouseButton, Seq<char>)> {
    if line.len() >= 3 && button_of(line[0]) is Some && line[1] == ' ' {
        Some((button_of(line[0]).unwrap(), line.subrange(2, line.len() as int)))
    } else {
        None
    }
}

/// Decodes one inbound click event line to the mouse button used and the
/// action name embedded in the clicked segment. A malformed line decodes
/// to nothing, and dropping it is the caller's whole obligation: bad
/// input is never an error.
pub fn parse_click(line: &str) -> (r: Option<(MouseButton, String)>)
    ensures
        match r {
            Some(ev) => click_of(line@) == Some((ev.0, ev.1@)),
            None => click_of(line@) is None,
        },
{
    let n = line.unicode_len();
    if n < 3 {
        return None;
    }
    let c0 = line.get_char(0);
    let button = if c0 == '1' {
        MouseButton::Left
    } else if c0 == '2' {
        MouseButton::Middle
    } else if c0 == '3' {
        MouseButton::Right
    } else if c0 == '4' {
        MouseButton::ScrollUp
    } else if c0 == '5' {
        MouseButton::ScrollDown
    } else {
        return None;
    };
    if line.get_char(1) != ' ' {
        return None;
    }
    let action = line.substring_char(2, n).to_owned();
    Some((button, action))
}

} // verus!
