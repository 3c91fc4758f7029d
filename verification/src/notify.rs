//! A desktop notification, reduced to the values the sink needs.
//!
//! The sink itself is fire-and-forget and lives in the surrounding binary;
//! the library only decides which notices to emit and with what text.

use vstd::prelude::*;

verus! {

/// Title and optional body of one notification.
pub struct Notice {
    pub title: String,
    pub body: Option<String>,
}

/// The mathematical value of a `Notice`.
#[verifier::ext_equal]
pub struct NoticeView {
    pub title: Seq<char>,
    pub body: Option<Seq<char>>,
}

impl View for Notice {
    type V = NoticeView;

    open spec fn view(&self) -> NoticeView {
        NoticeView {
            title: self.title@,
            body: match self.body {
                Some(b) => Some(b@),
                None => None,
            },
        }
    }
}

} // verus!
