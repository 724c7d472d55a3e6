//! The poll scheduler as a state machine.
//!
//! The scheduler itself never waits. The loop that drives it waits for the
//! timer or the probe, reports what happened as an event, and carries out the
//! action it gets back:
//!
//! ```text
//! Idle --Tick--> Probing --probe succeeded--> Dispatching --done--> Idle
//!                        --probe failed-----> Idle
//! ```
//!
//! An event that does not fit the current phase is ignored. In particular a
//! tick that arrives while a cycle is under way starts no second probe, so
//! cycles never overlap and statuses are committed in the order probed.

use vstd::prelude::*;
use crate::cell::SharedStatusCell;
use crate::cycle::{
    cell_after_cycle, outcome_of_cycle, probe_view, run_cycle, CycleOutcome, OutcomeView,
    ProbeError, ProbeView,
};
use crate::dispatch::{DispatchPlan, DispatchPlanView};
use crate::status::{Status, StatusView};
use crate::table::{Catalog, TranslationTable};
use crate::translate::Locale;

verus! {

/// Seconds between two ticks of the poll timer.
pub const POLL_INTERVAL_SECS: u64 = 15;

/// Where the scheduler stands within a cycle.
#[derive(Debug, Clone, Copy, PartialEq, Eq, Structural)]
pub enum Phase {
    /// Waiting for the next tick.
    Idle,
    /// A probe is under way.
    Probing,
    /// The probed status is stored; its side effects are being carried out.
    Dispatching,
}

/// What the driving loop reports to the scheduler.
#[derive(Debug, PartialEq, Eq)]
pub enum SchedulerEvent {
    /// The poll timer fired.
    Tick,
    /// The probe returned.
    ProbeCompleted(Result<Status, ProbeError>),
    /// The side effects of the last plan have been carried out.
    DispatchCompleted,
}

/// Mathematical content of a [`SchedulerEvent`].
pub enum EventView {
    Tick,
    ProbeCompleted(ProbeView),
    DispatchCompleted,
}

impl View for SchedulerEvent {
    type V = EventView;

    open spec fn view(&self) -> EventView {
        match self {
            SchedulerEvent::Tick => EventView::Tick,
            SchedulerEvent::ProbeCompleted(probe) => EventView::ProbeCompleted(probe_view(*probe)),
            SchedulerEvent::DispatchCompleted => EventView::DispatchCompleted,
        }
    }
}

/// What the driving loop is to do next.
#[derive(Debug, PartialEq, Eq)]
pub enum SchedulerAction {
    /// Run the probe once and report its result.
    StartProbe,
    /// Carry out the plan, then report that it is done.
    Dispatch(DispatchPlan),
    /// Log the failure, then wait for the next tick.
    ReportFailure(ProbeError),
    /// Wait for the next tick.
    AwaitTick,
    /// The event did not fit the phase; nothing has changed.
    Ignore,
}

/// Mathematical content of a [`SchedulerAction`].
pub enum ActionView {
    StartProbe,
    Dispatch(DispatchPlanView),
    ReportFailure(Seq<char>),
    AwaitTick,
    Ignore,
}

impl View for SchedulerAction {
    type V = ActionView;

    open spec fn view(&self) -> ActionView {
        match self {
            SchedulerAction::StartProbe => ActionView::StartProbe,
            SchedulerAction::Dispatch(plan) => ActionView::Dispatch(plan@),
            SchedulerAction::ReportFailure(error) => ActionView::ReportFailure(error@),
            SchedulerAction::AwaitTick => ActionView::AwaitTick,
            SchedulerAction::Ignore => ActionView::Ignore,
        }
    }
}

/// The phase that follows `phase` on `event`.
pub open spec fn next_phase(phase: Phase, event: EventView) -> Phase {
    match (phase, event) {
        (Phase::Idle, EventView::Tick) => Phase::Probing,
        (Phase::Probing, EventView::ProbeCompleted(Ok(_))) => Phase::Dispatching,
        (Phase::Probing, EventView::ProbeCompleted(Err(_))) => Phase::Idle,
        (Phase::Dispatching, EventView::DispatchCompleted) => Phase::Idle,
        _ => phase,
    }
}

/// What the cell holds after `event` arrived in `phase`. Only a probe that
/// succeeds while one is awaited writes to the cell.
pub open spec fn next_cell(phase: Phase, cell: Option<StatusView>, event: EventView) -> Option<
    StatusView,
> {
    match (phase, event) {
        (Phase::Probing, EventView::ProbeCompleted(probe)) => cell_after_cycle(cell, probe),
        _ => cell,
    }
}

/// The action that answers `event` in `phase`.
pub open spec fn next_action(
    catalog: Catalog,
    language: Seq<char>,
    phase: Phase,
    cell: Option<StatusView>,
    event: EventView,
) -> ActionView {
    match (phase, event) {
        (Phase::Idle, EventView::Tick) => ActionView::StartProbe,
        (Phase::Probing, EventView::ProbeCompleted(probe)) => match outcome_of_cycle(
            catalog,
            language,
            cell,
            probe,
        ) {
            OutcomeView::Dispatched(plan) => ActionView::Dispatch(plan),
            OutcomeView::Failed(message) => ActionView::ReportFailure(message),
        },
        (Phase::Dispatching, EventView::DispatchCompleted) => ActionView::AwaitTick,
        _ => ActionView::Ignore,
    }
}

/// Sequencer of poll cycles.
pub struct PollScheduler {
    phase: Phase,
}

impl View for PollScheduler {
    type V = Phase;

    closed spec fn view(&self) -> Phase {
        self.phase
    }
}

impl PollScheduler {
    /// A scheduler that waits for its first tick.
    pub fn new() -> (scheduler: Self)
        ensures
            scheduler@ == Phase::Idle,
    {
        PollScheduler { phase: Phase::Idle }
    }

    /// The current phase.
    pub fn phase(&self) -> (phase: Phase)
        ensures
            phase == self@,
    {
        self.phase
    }

    /// Takes `event` and answers with the next action.
    ///
    /// A successful probe is stored in `cell` and planned for dispatch under
    /// `language`; `cell` is left alone on every other event.
    pub fn handle(
        &mut self,
        cell: &mut SharedStatusCell,
        translations: &TranslationTable,
        language: &Locale,
        event: SchedulerEvent,
    ) -> (action: SchedulerAction)
        ensures
            final(self)@ == next_phase(old(self)@, event@),
            final(cell)@ == next_cell(old(self)@, old(cell)@, event@),
            action@ == next_action(translations@, language@, old(self)@, old(cell)@, event@),
    {
        match self.phase {
            Phase::Idle => match event {
                SchedulerEvent::Tick => {
                    self.phase = Phase::Probing;
                    SchedulerAction::StartProbe
                },
                _ => SchedulerAction::Ignore,
            },
            Phase::Probing => match event {
                SchedulerEvent::ProbeCompleted(probe) => match run_cycle(
                    cell,
                    translations,
                    language,
                    probe,
                ) {
                    CycleOutcome::Dispatched(plan) => {
                        self.phase = Phase::Dispatching;
                        SchedulerAction::Dispatch(plan)
                    },
                    CycleOutcome::Failed(error) => {
                        self.phase = Phase::Idle;
                        SchedulerAction::ReportFailure(error)
                    },
                },
                _ => SchedulerAction::Ignore,
            },
            Phase::Dispatching => match event {
                SchedulerEvent::DispatchCompleted => {
                    self.phase = Phase::Idle;
                    SchedulerAction::AwaitTick
                },
                _ => SchedulerAction::Ignore,
            },
        }
    }
}

} // verus!
