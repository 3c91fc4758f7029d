//! The fault barrier around one producer's poll.
//!
//! A probe that fails must degrade to a visibly marked segment, never take
//! the whole line down. The policy is a blanket one: every kind of failure
//! renders the same way, an error-colored segment carrying the failure's
//! message and no click bindings.

use vstd::prelude::*;

use crate::segment::{Segment, SegmentView};

verus! {

/// A producer's failure, reduced to its human-readable message.
pub struct BarError {
    pub message: String,
}

impl BarError {
    pub fn new(message: String) -> (e: BarError)
        ensures
            e.message@ == message@,
    {
        BarError { message }
    }
}

/// The fixed foreground color of an error segment.
pub open spec fn error_color() -> Seq<char> {
    "#ff5555"@
}

/// What `guard` returns for each poll outcome: the produced segment
/// unchanged on success, the fixed-style error segment on failure.
pub open spec fn guarded(outcome: Result<Segment, BarError>) -> SegmentView {
    match outcome {
        Ok(seg) => seg@,
        Err(e) => SegmentView {
            text: e.message@,
            color: Some(error_color()),
            clicks: Seq::empty(),
        },
    }
}

/// Contains one poll's failure: always returns a segment, for every
/// outcome of the poll. On success the produced segment passes through
/// unchanged; on failure the result is an error-colored segment whose text
/// is the failure's message, with no click bindings.
pub fn guard(outcome: Result<Segment, BarError>) -> (s: Segment)
    ensures
        s@ == guarded(outcome),
{
    match outcome {
        Ok(seg) => seg,
        Err(e) => {
            let s = Segment {
                text: e.message,
                color: Some(String::from_str("#ff5555")),
                clicks: Vec::new(),
            };
            proof {
                assert(s@ =~= guarded(outcome));
            }
            s
        },
    }
}

} // verus!
