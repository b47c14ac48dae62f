//! The link record and its timestamp.

use vstd::prelude::*;

verus! {

/// A UTC instant: whole seconds since the Unix epoch and the nanoseconds
/// past that second.
#[derive(Clone, Copy, Debug, PartialEq, Eq, Structural)]
pub struct Timestamp {
    pub secs: i64,
    pub nanos: u32,
}

/// Relies on chrono's `Utc::now`, read as seconds and nanoseconds since the
/// epoch. The clock decides the value, so nothing is promised of it;
/// `Utc::now` panics only where the system clock reads before the epoch.
#[verifier::external_body]
pub(crate) fn now_utc() -> (r: Timestamp) {
    let now = chrono::Utc::now();
    Timestamp { secs: now.timestamp(), nanos: now.timestamp_subsec_nanos() }
}

/// One stored link: its short code, when it was created, and where it leads.
#[derive(Clone, Debug)]
pub struct Link {
    pub link: String,
    pub created_at: Timestamp,
    pub redirect: String,
}

/// The mathematical value of a [`Link`].
pub struct LinkView {
    pub link: Seq<char>,
    pub created_at: Timestamp,
    pub redirect: Seq<char>,
}

impl View for Link {
    type V = LinkView;

    open spec fn view(&self) -> LinkView {
        LinkView { link: self.link@, created_at: self.created_at, redirect: self.redirect@ }
    }
}

impl Link {
    /// A copy of this record, field for field.
    pub fn cloned(&self) -> (r: Link)
        ensures
            r@ == self@,
    {
        Link { link: self.link.clone(), created_at: self.created_at, redirect: self.redirect.clone() }
    }
}

} // verus!
