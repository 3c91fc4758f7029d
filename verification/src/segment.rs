//! The renderable unit of the status line.
//!
//! A `Segment` is an immutable value: text, an optional foreground color,
//! and a list of click bindings, each tying a mouse button to the name of a
//! registered action. A producer builds a fresh one on every successful
//! poll; the scheduler only ever replaces a stored segment, never edits it.

use vstd::prelude::*;

verus! {

/// A mouse button as reported by the host bar with a click event.
#[derive(Clone, Copy, PartialEq, Eq, Structural, Debug)]
pub enum MouseButton {
    Left,
    Middle,
    Right,
    ScrollUp,
    ScrollDown,
}

/// One click binding: pressing `button` on the segment asks for the action
/// registered under `action`.
pub struct ClickBinding {
    pub button: MouseButton,
    pub action: String,
}

/// The mathematical value of a `ClickBinding`.
#[verifier::ext_equal]
pub struct ClickView {
    pub button: MouseButton,
    pub action: Seq<char>,
}

impl View for ClickBinding {
    type V = ClickView;

    open spec fn view(&self) -> ClickView {
        ClickView { button: self.button, action: self.action@ }
    }
}

/// One renderable unit of the composed status line.
pub struct Segment {
    pub text: String,
    pub color: Option<String>,
    pub clicks: Vec<ClickBinding>,
}

/// The mathematical value of a `Segment`.
#[verifier::ext_equal]
pub struct SegmentView {
    pub text: Seq<char>,
    pub color: Option<Seq<char>>,
    pub clicks: Seq<ClickView>,
}

impl View for Segment {
    type V = SegmentView;

    open spec fn view(&self) -> SegmentView {
        SegmentView {
            text: self.text@,
            color: match self.color {
                Some(c) => Some(c@),
                None => None,
            },
            clicks: Seq::new(self.clicks@.len(), |i: int| self.clicks@[i]@),
        }
    }
}

/// The action bound to `button` in `clicks`, searching front to back.
pub open spec fn find_action(clicks: Seq<ClickView>, button: MouseButton) -> Option<Seq<char>>
    decreases clicks.len(),
{
    if clicks.len() == 0 {
        None
    } else if clicks[0].button == button {
        Some(clicks[0].action)
    } else {
        find_action(clicks.drop_first(), button)
    }
}

impl Segment {
    /// A plain segment: the given text, no color, no click bindings.
    pub fn new(text: String) -> (s: Segment)
        ensures
            s@.text == text@,
            s@.color is None,
            s@.clicks == Seq::<ClickView>::empty(),
    {
        let s = Segment { text, color: None, clicks: Vec::new() };
        proof {
            assert(s@.clicks =~= Seq::<ClickView>::empty());
        }
        s
    }

    /// A segment with no text at all, rendered as nothing.
    pub fn empty() -> (s: Segment)
        ensures
            s@.text == Seq::<char>::empty(),
            s@.color is None,
            s@.clicks == Seq::<ClickView>::empty(),
    {
        Segment::new(String::new())
    }

    /// A colored segment with no click bindings.
    pub fn colored(text: String, color: String) -> (s: Segment)
        ensures
            s@.text == text@,
            s@.color == Some(color@),
            s@.clicks == Seq::<ClickView>::empty(),
    {
        let s = Segment { text, color: Some(color), clicks: Vec::new() };
        proof {
            assert(s@.clicks =~= Seq::<ClickView>::empty());
        }
        s
    }

    /// The same segment with one more click binding appended.
    pub fn with_click(self, button: MouseButton, action: String) -> (s: Segment)
        ensures
            s@.text == self@.text,
            s@.color == self@.color,
            s@.clicks == self@.clicks.push(ClickView { button, action: action@ }),
    {
        let ghost old_view = self@;
        let Segment { text, color, mut clicks } = self;
        clicks.push(ClickBinding { button, action });
        let s = Segment { text, color, clicks };
        proof {
            assert(s@.clicks =~= old_view.clicks.push(
                ClickView { button, action: action@ },
            ));
        }
        s
    }

    /// The name of the action bound to `button`, if the segment has one;
    /// the first binding wins if a button was bound twice.
    pub fn action_for(&self, button: MouseButton) -> (r: Option<&String>)
        ensures
            match r {
                Some(a) => find_action(self@.clicks, button) == Some(a@),
                None => find_action(self@.clicks, button) is None,
            },
    {
        let n = self.clicks.len();
        let mut i: usize = 0;
        proof {
            assert(self@.clicks.skip(0) =~= self@.clicks);
        }
        while i < n
            invariant
                i <= n,
                n == self.clicks.len(),
                find_action(self@.clicks, button) == find_action(
                    self@.clicks.skip(i as int),
                    button,
                ),
            decreases n - i,
        {
            proof {
                assert(self@.clicks.skip(i as int)[0] == self@.clicks[i as int]);
                assert(self@.clicks.skip(i as int).drop_first() =~= self@.clicks.skip(
                    i as int + 1,
                ));
            }
            if self.clicks[i].button == button {
                return Some(&self.clicks[i].action);
            }
            i = i + 1;
        }
        proof {
            assert(self@.clicks.skip(n as int) =~= Seq::<ClickView>::empty());
        }
        None
    }

    /// A fresh segment equal in value to this one.
    pub fn duplicate(&self) -> (s: Segment)
        ensures
            s@ == self@,
    {
        let text = self.text.clone();
        let color = match &self.color {
            Some(c) => Some(c.clone()),
            None => None,
        };
        let mut clicks: Vec<ClickBinding> = Vec::new();
        let n = self.clicks.len();
        let mut i: usize = 0;
        while i < n
            invariant
                i <= n,
                n == self.clicks.len(),
                clicks@.len() == i,
                forall|j: int| 0 <= j < i ==> clicks@[j]@ == self.clicks@[j]@,
            decreases n - i,
        {
            clicks.push(ClickBinding {
                button: self.clicks[i].button,
                action: self.clicks[i].action.clone(),
            });
            i = i + 1;
        }
        let s = Segment { text, color, clicks };
        proof {
            assert(s@ =~= self@);
        }
        s
    }
}

} // verus!
