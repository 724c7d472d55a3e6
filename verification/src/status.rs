//! The value a successful probe yields.

use vstd::prelude::*;

verus! {

/// Mathematical content of a [`Status`].
pub struct StatusView {
    pub connected: bool,
    pub country: Option<Seq<char>>,
    pub server: Option<Seq<char>>,
    pub probed_at: u64,
}

/// Mathematical content of an optional string.
pub open spec fn text_view(text: Option<String>) -> Option<Seq<char>> {
    match text {
        Some(s) => Some(s@),
        None => None,
    }
}

/// Result of one successful connectivity probe.
///
/// Only `connected` takes part in change detection; the other fields are
/// carried through untouched.
#[derive(Debug, PartialEq, Eq)]
pub struct Status {
    pub connected: bool,
    pub country: Option<String>,
    pub server: Option<String>,
    /// Seconds since the Unix epoch at which the probe completed.
    pub probed_at: u64,
}

impl View for Status {
    type V = StatusView;

    open spec fn view(&self) -> StatusView {
        StatusView {
            connected: self.connected,
            country: text_view(self.country),
            server: text_view(self.server),
            probed_at: self.probed_at,
        }
    }
}

/// Copies an optional string.
pub fn clone_text(text: &Option<String>) -> (copy: Option<String>)
    ensures
        copy == *text,
{
    match text {
        Some(s) => Some(s.clone()),
        None => None,
    }
}

impl Clone for Status {
    fn clone(&self) -> (copy: Self)
        ensures
            copy == *self,
    {
        Status {
            connected: self.connected,
            country: clone_text(&self.country),
            server: clone_text(&self.server),
            probed_at: self.probed_at,
        }
    }
}

/// Mathematical content of an optional status.
pub open spec fn status_view(status: Option<Status>) -> Option<StatusView> {
    match status {
        Some(s) => Some(s@),
        None => None,
    }
}

} // verus!
