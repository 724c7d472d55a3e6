//! The cell that holds the most recently observed status.
//!
//! The cell is a plain owned value. Whoever shares it between the poll loop
//! and synchronous callers wraps it in a lock of their choice; because
//! `write` needs exclusive access and `read` hands out a copy, a reader gets
//! either the value before a write or the value after it, never a mixture.

use vstd::prelude::*;
use vstd::string::*;
use crate::status::{status_view, Status, StatusView};

verus! {

/// Text of the failure that a query before the first successful probe gets.
pub const NOT_AVAILABLE_MESSAGE: &'static str = "Status not available yet";

/// Failure of a status query made before any probe has succeeded.
#[derive(Debug, Clone, Copy, PartialEq, Eq, Structural)]
pub struct NotAvailable;

impl NotAvailable {
    /// The failure as text, for callers that report it to a person.
    pub fn message(&self) -> (text: String)
        ensures
            text@ == NOT_AVAILABLE_MESSAGE@,
    {
        String::from_str(NOT_AVAILABLE_MESSAGE)
    }
}

/// Holder of the latest committed status; empty until the first commit.
pub struct SharedStatusCell {
    latest: Option<Status>,
}

impl View for SharedStatusCell {
    type V = Option<StatusView>;

    closed spec fn view(&self) -> Option<StatusView> {
        status_view(self.latest)
    }
}

impl SharedStatusCell {
    /// An empty cell.
    pub fn new() -> (cell: Self)
        ensures
            cell@ is None,
    {
        SharedStatusCell { latest: None }
    }

    /// A copy of the latest committed status, or `None` if there is none yet.
    pub fn read(&self) -> (latest: Option<Status>)
        ensures
            status_view(latest) == self@,
    {
        match &self.latest {
            Some(status) => Some(status.clone()),
            None => None,
        }
    }

    /// Replaces the held status by `new` and returns the one it replaced.
    pub fn write(&mut self, new: Status) -> (previous: Option<Status>)
        ensures
            final(self)@ == Some(new@),
            status_view(previous) == old(self)@,
    {
        let previous = self.latest.take();
        self.latest = Some(new);
        previous
    }
}

/// The latest committed status of `cell`.
///
/// Fails with [`NotAvailable`] exactly when nothing has been committed yet.
pub fn get_vpn_status(cell: &SharedStatusCell) -> (status: Result<Status, NotAvailable>)
    ensures
        match status {
            Ok(latest) => cell@ == Some(latest@),
            Err(_) => cell@ is None,
        },
{
    match cell.read() {
        Some(latest) => Ok(latest),
        None => Err(NotAvailable),
    }
}

} // verus!
