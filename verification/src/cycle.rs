//! One poll cycle, from the probe's result to the plan of side effects.
//!
//! A successful probe is compared with the stored status, stored in its place
//! whether or not it differs, and dispatched. A failed probe changes nothing
//! and is handed back for reporting.

use vstd::prelude::*;
use crate::cell::SharedStatusCell;
use crate::dispatch::{dispatch, plan_for, DispatchPlan, DispatchPlanView};
use crate::status::{Status, StatusView};
use crate::table::{Catalog, TranslationTable};
use crate::transition::{detect, transition_between};
use crate::translate::Locale;

verus! {

/// Failure of a probe. The text is passed on to the log and never inspected.
#[derive(Debug, PartialEq, Eq)]
pub struct ProbeError {
    pub message: String,
}

impl View for ProbeError {
    type V = Seq<char>;

    open spec fn view(&self) -> Seq<char> {
        self.message@
    }
}

/// Mathematical content of a probe's result.
pub type ProbeView = Result<StatusView, Seq<char>>;

/// Mathematical content of `probe`.
pub open spec fn probe_view(probe: Result<Status, ProbeError>) -> ProbeView {
    match probe {
        Ok(status) => Ok(status@),
        Err(error) => Err(error@),
    }
}

/// How a cycle ended.
#[derive(Debug, PartialEq, Eq)]
pub enum CycleOutcome {
    /// The probe succeeded; its status is stored and these effects are due.
    Dispatched(DispatchPlan),
    /// The probe failed; nothing was stored and nothing is to be shown.
    Failed(ProbeError),
}

/// Mathematical content of a [`CycleOutcome`].
pub enum OutcomeView {
    Dispatched(DispatchPlanView),
    Failed(Seq<char>),
}

impl View for CycleOutcome {
    type V = OutcomeView;

    open spec fn view(&self) -> OutcomeView {
        match self {
            CycleOutcome::Dispatched(plan) => OutcomeView::Dispatched(plan@),
            CycleOutcome::Failed(error) => OutcomeView::Failed(error@),
        }
    }
}

/// What the cell holds after a cycle that found `cell` and probed `probe`.
pub open spec fn cell_after_cycle(cell: Option<StatusView>, probe: ProbeView) -> Option<StatusView> {
    match probe {
        Ok(status) => Some(status),
        Err(_) => cell,
    }
}

/// How a cycle that found `cell` and probed `probe` ends.
pub open spec fn outcome_of_cycle(
    catalog: Catalog,
    language: Seq<char>,
    cell: Option<StatusView>,
    probe: ProbeView,
) -> OutcomeView {
    match probe {
        Ok(status) => OutcomeView::Dispatched(
            plan_for(catalog, language, status, transition_between(cell, status).changed),
        ),
        Err(message) => OutcomeView::Failed(message),
    }
}

/// Stores `status` in `cell` and plans the side effects that follow.
pub fn commit_and_dispatch(
    cell: &mut SharedStatusCell,
    translations: &TranslationTable,
    language: &Locale,
    status: Status,
) -> (plan: DispatchPlan)
    ensures
        final(cell)@ == Some(status@),
        plan@ == plan_for(
            translations@,
            language@,
            status@,
            transition_between(old(cell)@, status@).changed,
        ),
{
    let previous = cell.write(status.clone());
    let transition = detect(previous.as_ref(), &status);
    dispatch(translations, language, &status, &transition)
}

/// Completes one cycle with the result of its probe.
pub fn run_cycle(
    cell: &mut SharedStatusCell,
    translations: &TranslationTable,
    language: &Locale,
    probe: Result<Status, ProbeError>,
) -> (outcome: CycleOutcome)
    ensures
        final(cell)@ == cell_after_cycle(old(cell)@, probe_view(probe)),
        outcome@ == outcome_of_cycle(translations@, language@, old(cell)@, probe_view(probe)),
{
    match probe {
        Ok(status) => CycleOutcome::Dispatched(
            commit_and_dispatch(cell, translations, language, status),
        ),
        Err(error) => CycleOutcome::Failed(error),
    }
}

} // verus!
