//! Properties of the stage document that span several of its operations.
use vstd::prelude::*;

use super::stages::{
    any_handler_failed, cancel_remaining, handler_failed, pipeline_status_of, results_view, update_named, with_results,
    HandlerResult, StageStatus, StageView,
};

verus! {

/// After cancellation no stage is pending, and every stage that was not
/// pending keeps its entry unchanged.
pub proof fn law_cancel_leaves_no_pending(stages: Seq<StageView>)
    ensures
        forall|i: int|
            0 <= i < stages.len() ==> (#[trigger] cancel_remaining(stages)[i]).status
                != Some(StageStatus::Pending),
        forall|i: int|
            0 <= i < stages.len() && stages[i].status != Some(StageStatus::Pending) ==> (#[trigger] cancel_remaining(stages)[i]) == stages[i],
{
}

/// Cancelling the remaining stages twice is the same as cancelling them once.
pub proof fn law_cancel_idempotent(stages: Seq<StageView>)
    ensures
        cancel_remaining(cancel_remaining(stages)) == cancel_remaining(stages),
{
    let once = cancel_remaining(stages);
    assert(cancel_remaining(once) =~= once);
}

/// A pipeline with a stage still pending when the remaining stages are
/// cancelled ends cancelled.
pub proof fn law_cancelled_pipeline(stages: Seq<StageView>, i: int)
    requires
        0 <= i < stages.len(),
        stages[i].status == Some(StageStatus::Pending),
    ensures
        pipeline_status_of(cancel_remaining(stages)) == "cancelled"@,
{
    let c = cancel_remaining(stages);
    assert(c[i].status == Some(StageStatus::Cancelled));
}

/// When every handler of a stage fails, the stage fails, and the pipeline
/// ends failed (or cancelled, if a stage was cancelled).
pub proof fn law_all_failed_stage_fails_pipeline(
    stages: Seq<StageView>,
    name: Seq<char>,
    results: Seq<HandlerResult>,
    i: int,
)
    requires
        0 <= i < stages.len(),
        stages[i].name == name,
        results.len() > 0,
        forall|k: int| 0 <= k < results.len() ==> (#[trigger] results[k]).status == StageStatus::Failed,
    ensures
        update_named(stages, name, |e: StageView| with_results(e, results))[i].status == Some(
            StageStatus::Failed,
        ),
        pipeline_status_of(update_named(stages, name, |e: StageView| with_results(e, results)))
            == "failed"@ || pipeline_status_of(
            update_named(stages, name, |e: StageView| with_results(e, results)),
        ) == "cancelled"@,
{
    let u = update_named(stages, name, |e: StageView| with_results(e, results));
    assert(u[i].status == Some(StageStatus::Failed));
}

/// When some but not all handlers of a stage fail, the stage completes, and
/// the pipeline never ends plainly completed: it reports warnings (or a
/// failure or cancellation of some stage).
pub proof fn law_partial_failure_warns(
    stages: Seq<StageView>,
    name: Seq<char>,
    results: Seq<HandlerResult>,
    i: int,
    j: int,
)
    requires
        0 <= i < stages.len(),
        stages[i].name == name,
        0 <= j < results.len(),
        results[j].status == StageStatus::Failed,
        exists|k: int| 0 <= k < results.len() && (#[trigger] results[k]).status != StageStatus::Failed,
    ensures
        update_named(stages, name, |e: StageView| with_results(e, results))[i].status == Some(
            StageStatus::Completed,
        ),
        pipeline_status_of(update_named(stages, name, |e: StageView| with_results(e, results)))
            != "completed"@,
{
    let u = update_named(stages, name, |e: StageView| with_results(e, results));
    assert(u[i].status == Some(StageStatus::Completed));
    let hs = results_view(results);
    assert(hs[j].status == StageStatus::Failed);
    assert(u[i].handlers == Some(hs));
    assert(handler_failed(u[i]));
    assert(any_handler_failed(u));
    reveal_strlit("completed");
    reveal_strlit("completed_with_warnings");
    reveal_strlit("failed");
    reveal_strlit("cancelled");
    assert("completed_with_warnings"@.len() != "completed"@.len());
    assert("failed"@.len() != "completed"@.len());
    assert("cancelled"@[1] != "completed"@[1]);
}

} // verus!
