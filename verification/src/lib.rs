//! Status monitor core: the state a connectivity monitor keeps between probes,
//! the rule that decides when a probe result counts as a change, the plan of
//! side effects each cycle produces, and the locale-aware text those effects show.
//!
//! Everything here is plain data in and plain data out. The embedding program
//! owns the timer, the probe, the locks and the sinks.

pub mod status;
pub mod text;
pub mod table;
pub mod translate;
pub mod cell;
pub mod transition;
pub mod dispatch;
pub mod cycle;
pub mod scheduler;
pub mod history;
pub mod tray;
pub mod autostart;
