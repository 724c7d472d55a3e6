//! Change detection between two observations.
//!
//! Only the connectivity flag decides. A probe that reports another country or
//! server while the flag stays the same is not a change.

use vstd::prelude::*;
use crate::status::{Status, StatusView};

verus! {

/// How a newly probed status relates to the one stored before it.
#[derive(Debug, Clone, Copy, PartialEq, Eq, Structural)]
pub struct Transition {
    /// Connectivity of the status stored before; `None` if none was stored.
    pub previous: Option<bool>,
    /// Connectivity of the new status.
    pub current: bool,
    /// Whether the new status counts as a change.
    pub changed: bool,
}

/// Connectivity of an optional status.
pub open spec fn connectivity(status: Option<StatusView>) -> Option<bool> {
    match status {
        Some(s) => Some(s.connected),
        None => None,
    }
}

/// A first observation always counts as a change; a later one does if and
/// only if its connectivity differs from the one before.
pub open spec fn is_change(previous: Option<bool>, current: bool) -> bool {
    match previous {
        Some(before) => before != current,
        None => true,
    }
}

/// The transition from `previous` to `current`.
pub open spec fn transition_between(previous: Option<StatusView>, current: StatusView) -> Transition {
    Transition {
        previous: connectivity(previous),
        current: current.connected,
        changed: is_change(connectivity(previous), current.connected),
    }
}

/// Classifies `current` against the status stored before it.
pub fn detect(previous: Option<&Status>, current: &Status) -> (transition: Transition)
    ensures
        transition == transition_between(
            match previous {
                Some(p) => Some(p@),
                None => None,
            },
            current@,
        ),
{
    match previous {
        Some(before) => Transition {
            previous: Some(before.connected),
            current: current.connected,
            changed: before.connected != current.connected,
        },
        None => Transition { previous: None, current: current.connected, changed: true },
    }
}

} // verus!
