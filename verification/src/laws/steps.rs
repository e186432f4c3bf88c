//! What holds of the way a plan is followed.
use crate::laws::lemma_first_end_is_first;
use crate::step::{first_end, next_of, NextView, StepView};
use vstd::prelude::*;

verus! {

/// Whether a step that failed is one to end with: any but those that only clean up.
pub open spec fn is_fatal(step: StepView, failed: bool) -> bool {
    failed && match step {
        StepView::RemoveFile { .. } => false,
        StepView::RemoveTree { .. } => false,
        _ => true,
    }
}

/// A step ends the creation exactly where it failed and does more than clean up.
pub proof fn law_failures_end_the_creation(step: StepView, failed: bool)
    ensures
        step.ends_creation(failed) <==> is_fatal(step, failed),
{
}

/// Quiet mode leaves out the notes and the report, and nothing else.
pub proof fn law_quiet_mode_leaves_out_talk(step: StepView)
    ensures
        step.is_talk() <==> match step {
            StepView::Note(_) => true,
            StepView::Report { .. } => true,
            _ => false,
        },
{
}

/// Where no failure so far is one to end with, the step behind those that were performed comes
/// next, and when all were performed nothing does.
pub proof fn law_plan_goes_on_without_failures(steps: Seq<StepView>, failed: Seq<bool>)
    requires
        forall|i: int|
            0 <= i < steps.len() && i < failed.len() ==> !is_fatal(#[trigger] steps[i], failed[i]),
    ensures
        next_of(steps, failed) == if failed.len() < steps.len() {
            NextView::Perform(failed.len() as int)
        } else {
            NextView::Done
        },
{
    let count = if failed.len() < steps.len() {
        failed.len() as int
    } else {
        steps.len() as int
    };
    lemma_first_end_is_first(steps, failed, count);
    if let Some(at) = first_end(steps, failed, count) {
        law_failures_end_the_creation(steps[at], failed[at]);
        assert(!is_fatal(steps[at], failed[at]));
    }
}

/// The first failure that is one to end with is the end, whatever is said of later steps.
pub proof fn law_plan_stops_at_the_first_failure(
    steps: Seq<StepView>,
    failed: Seq<bool>,
    at: int,
)
    requires
        0 <= at < steps.len(),
        at < failed.len(),
        is_fatal(steps[at], failed[at]),
        forall|i: int| 0 <= i < at ==> !is_fatal(#[trigger] steps[i], failed[i]),
    ensures
        next_of(steps, failed) == NextView::Stop(at),
{
    let count = if failed.len() < steps.len() {
        failed.len() as int
    } else {
        steps.len() as int
    };
    lemma_first_end_is_first(steps, failed, count);
    law_failures_end_the_creation(steps[at], failed[at]);
    match first_end(steps, failed, count) {
        Some(end) => {
            law_failures_end_the_creation(steps[end], failed[end]);
            if end < at {
                assert(!is_fatal(steps[end], failed[end]));
            }
        },
        None => {
            assert(!steps[at].ends_creation(failed[at]));
        },
    }
}

} // verus!
