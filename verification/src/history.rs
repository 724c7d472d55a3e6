//! What holds over a whole run of cycles.
//!
//! A run is the sequence of probe results the monitor has seen since it
//! started with an empty cell, each with the locale that was active when its
//! cycle was dispatched. The statements below are about every such run.

use vstd::prelude::*;
use crate::cycle::{cell_after_cycle, outcome_of_cycle, OutcomeView, ProbeView};
use crate::dispatch::{indicator_state, IconStatus};
use crate::scheduler::{next_action, next_cell, next_phase, EventView, Phase};
use crate::status::StatusView;
use crate::table::Catalog;

verus! {

/// What one cycle of a run was given.
pub struct CycleInput {
    /// The locale active during the cycle.
    pub language: Seq<char>,
    /// The result of the cycle's probe.
    pub probe: ProbeView,
}

/// What the cell holds after a run that started with an empty cell.
pub open spec fn cell_after(inputs: Seq<CycleInput>) -> Option<StatusView>
    decreases inputs.len(),
{
    if inputs.len() == 0 {
        None
    } else {
        cell_after_cycle(cell_after(inputs.drop_last()), inputs.last().probe)
    }
}

/// How cycle `i` of a run ended.
pub open spec fn outcome_at(catalog: Catalog, inputs: Seq<CycleInput>, i: int) -> OutcomeView {
    outcome_of_cycle(catalog, inputs[i].language, cell_after(inputs.take(i)), inputs[i].probe)
}

/// Cycle `i` of a run fired a notification.
pub open spec fn notified_at(catalog: Catalog, inputs: Seq<CycleInput>, i: int) -> bool {
    outcome_at(catalog, inputs, i) matches OutcomeView::Dispatched(plan)
        && plan.notification is Some
}

/// What the indicator shows after a run: the state of the last refresh, or
/// `Unknown` if it was never refreshed.
pub open spec fn shown_after(catalog: Catalog, inputs: Seq<CycleInput>) -> IconStatus
    decreases inputs.len(),
{
    if inputs.len() == 0 {
        IconStatus::Unknown
    } else {
        match outcome_at(catalog, inputs, inputs.len() - 1) {
            OutcomeView::Dispatched(plan) => plan.indicator.state,
            OutcomeView::Failed(_) => shown_after(catalog, inputs.drop_last()),
        }
    }
}

/// No probe of the run succeeded.
pub open spec fn no_success(inputs: Seq<CycleInput>) -> bool {
    forall|j: int| 0 <= j < inputs.len() ==> (#[trigger] inputs[j]).probe is Err
}

/// Probe `i` of the run succeeded with `status`, and none after it succeeded.
pub open spec fn is_latest_success(inputs: Seq<CycleInput>, i: int, status: StatusView) -> bool {
    &&& 0 <= i < inputs.len()
    &&& inputs[i].probe == Ok::<StatusView, Seq<char>>(status)
    &&& forall|j: int| i < j < inputs.len() ==> (#[trigger] inputs[j]).probe is Err
}

/// The cell is empty exactly as long as no probe has succeeded: a status
/// query fails before the first success and at no time after it.
pub proof fn law_cell_empty_until_first_success(inputs: Seq<CycleInput>)
    ensures
        cell_after(inputs) is None <==> no_success(inputs),
    decreases inputs.len(),
{
    if inputs.len() > 0 {
        let earlier = inputs.drop_last();
        law_cell_empty_until_first_success(earlier);
        if inputs.last().probe is Err {
            if no_success(earlier) {
                assert forall|j: int| 0 <= j < inputs.len() implies (#[trigger] inputs[j]).probe is Err by {
                    if j < earlier.len() {
                        assert(earlier[j] == inputs[j]);
                    }
                }
            }
            if no_success(inputs) {
                assert forall|j: int| 0 <= j < earlier.len() implies (#[trigger] earlier[j]).probe is Err by {
                    assert(earlier[j] == inputs[j]);
                }
            }
        } else {
            assert(inputs[inputs.len() - 1].probe is Ok);
        }
    }
}

/// The cell holds the status of the latest successful probe, with all its
/// fields, however many failures followed it.
pub proof fn law_cell_holds_latest_success(inputs: Seq<CycleInput>, i: int, status: StatusView)
    requires
        is_latest_success(inputs, i, status),
    ensures
        cell_after(inputs) == Some(status),
    decreases inputs.len(),
{
    if i < inputs.len() - 1 {
        let earlier = inputs.drop_last();
        assert(inputs[inputs.len() - 1].probe is Err);
        assert(earlier[i] == inputs[i]);
        assert forall|j: int| i < j < earlier.len() implies (#[trigger] earlier[j]).probe is Err by {
            assert(earlier[j] == inputs[j]);
        }
        law_cell_holds_latest_success(earlier, i, status);
    }
}

/// A notification fires if and only if the probe succeeded and its
/// connectivity differs from that of the latest success before it. The first
/// success of a run always fires one; a failed probe never does.
pub proof fn law_notification_iff_connectivity_differs(
    catalog: Catalog,
    inputs: Seq<CycleInput>,
    i: int,
)
    requires
        0 <= i < inputs.len(),
    ensures
        inputs[i].probe is Err ==> !notified_at(catalog, inputs, i),
        inputs[i].probe is Ok && no_success(inputs.take(i)) ==> notified_at(catalog, inputs, i),
        forall|k: int, before: StatusView|
            inputs[i].probe is Ok && #[trigger] is_latest_success(inputs.take(i), k, before) ==> (
            notified_at(catalog, inputs, i) <==> before.connected != inputs[i].probe->Ok_0.connected),
{
    let earlier = inputs.take(i);
    law_cell_empty_until_first_success(earlier);
    assert forall|k: int, before: StatusView|
        inputs[i].probe is Ok && #[trigger] is_latest_success(earlier, k, before) implies (
        notified_at(catalog, inputs, i) <==> before.connected != inputs[i].probe->Ok_0.connected) by {
        law_cell_holds_latest_success(earlier, k, before);
    }
}

/// After every run the indicator shows the connectivity of the latest
/// successful probe, and `Unknown` as long as none has succeeded. Cycles that
/// detect no change refresh it all the same; failed cycles leave it alone.
pub proof fn law_indicator_shows_latest_success(catalog: Catalog, inputs: Seq<CycleInput>)
    ensures
        shown_after(catalog, inputs) == match cell_after(inputs) {
            Some(status) => indicator_state(status.connected),
            None => IconStatus::Unknown,
        },
        no_success(inputs) ==> shown_after(catalog, inputs) == IconStatus::Unknown,
        forall|i: int, status: StatusView| #[trigger]
            is_latest_success(inputs, i, status) ==> shown_after(catalog, inputs)
                == indicator_state(status.connected),
    decreases inputs.len(),
{
    if inputs.len() > 0 {
        law_indicator_shows_latest_success(catalog, inputs.drop_last());
        assert(inputs[inputs.len() - 1] == inputs.last());
    }
    law_cell_empty_until_first_success(inputs);
    assert forall|i: int, status: StatusView| #[trigger]
        is_latest_success(inputs, i, status) implies shown_after(catalog, inputs)
        == indicator_state(status.connected) by {
        law_cell_holds_latest_success(inputs, i, status);
    }
}

/// A probe that reports the connectivity already stored fires no
/// notification, whatever else it reports. Its status is stored and published
/// all the same, so a query sees the new country and server.
pub proof fn law_auxiliary_change_is_silent(
    catalog: Catalog,
    language: Seq<char>,
    stored: StatusView,
    probed: StatusView,
)
    requires
        stored.connected == probed.connected,
    ensures
        outcome_of_cycle(catalog, language, Some(stored), Ok(probed)) matches OutcomeView::Dispatched(
            plan,
        ) && plan.notification is None && plan.event == probed,
        cell_after_cycle(Some(stored), Ok(probed)) == Some(probed),
{
}

/// A failed probe leaves the cell as it was and yields nothing to show.
pub proof fn law_failure_changes_nothing(
    catalog: Catalog,
    language: Seq<char>,
    cell: Option<StatusView>,
    message: Seq<char>,
)
    ensures
        cell_after_cycle(cell, Err(message)) == cell,
        outcome_of_cycle(catalog, language, cell, Err(message)) == OutcomeView::Failed(message),
{
}

/// Cycles never overlap: the scheduler asks for a probe only on a tick that
/// finds it idle, and writes to the cell only for a probe that succeeds
/// while it is probing.
pub proof fn law_cycles_do_not_overlap(
    catalog: Catalog,
    language: Seq<char>,
    phase: Phase,
    cell: Option<StatusView>,
    event: EventView,
)
    ensures
        next_action(catalog, language, phase, cell, event) is StartProbe <==> phase is Idle
            && event is Tick,
        next_action(catalog, language, phase, cell, event) is StartProbe ==> next_phase(
            phase,
            event,
        ) is Probing,
        next_cell(phase, cell, event) != cell ==> phase is Probing && event
            matches EventView::ProbeCompleted(Ok(_)),
        next_action(catalog, language, phase, cell, event) is Ignore ==> next_phase(phase, event)
            == phase && next_cell(phase, cell, event) == cell,
{
}

/// A cycle that starts from idle ends in idle, whether its probe fails or
/// succeeds, and stores what one cycle stores.
pub proof fn law_cycle_returns_to_idle(cell: Option<StatusView>, probe: ProbeView)
    ensures
        ({
            let probing = next_phase(Phase::Idle, EventView::Tick);
            let probed = next_phase(probing, EventView::ProbeCompleted(probe));
            &&& probing is Probing
            &&& next_cell(probing, cell, EventView::ProbeCompleted(probe)) == cell_after_cycle(
                cell,
                probe,
            )
            &&& probe is Err ==> probed is Idle
            &&& probe is Ok ==> probed is Dispatching && next_phase(
                probed,
                EventView::DispatchCompleted,
            ) is Idle
        }),
{
}

} // verus!
