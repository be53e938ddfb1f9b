//! Decisions of the ingestion pipeline workflow: which ingestion handler
//! each source is sent to, how a failed ingestion ends the pipeline, the
//! main branch of sequential stages, and how the run record is closed.
use vstd::prelude::*;

use crate::github::graphql::{join_spec, join_strings};
use crate::pipeline::stages::{
    call_result, cancel_remaining, mark_remaining_cancelled, mark_stage_complete, source_view,
    update_named, with_results, HandlerResult, SourceInfo, StageStatus, Stages,
};
use restate_sdk::errors::TerminalError;
use crate::errors::{new_terminal_error, prefixed_message, terminal_err_message, terminal_error_new};
use crate::model::{parse_uuid, uuid_parse};
use crate::text::{has_prefix, owned, push_str, starts_with, str_eq};

verus! {

/// The pipeline a workflow's key names: the key parsed as a UUID, or a
/// terminal error `invalid pipeline ID: {error}` with the parser's message.
pub fn parse_pipeline_id(key: &str) -> (r: Result<u128, TerminalError>)
    ensures
        r matches Ok(v) ==> uuid_parse(key@) == Ok::<u128, Seq<char>>(v),
        r matches Err(t) ==> (uuid_parse(key@) matches Err(e) && t == terminal_error_new(
            prefixed_message("invalid pipeline ID"@, e),
        )),
{
    match parse_uuid(key) {
        Ok(v) => Ok(v),
        Err(e) => Err(new_terminal_error(terminal_err_message("invalid pipeline ID", e.as_str()))),
    }
}

/// The ingestion handler a source is sent to.
#[derive(Debug, Clone, Copy, PartialEq, Eq, Structural)]
pub enum IngestionTarget {
    Github,
    Jira,
    Discourse,
}

/// The handler of a source type: `github`, `jira`, or any `discourse…`
/// type; other types are skipped.
pub open spec fn target_of(source_type: Seq<char>) -> Option<IngestionTarget> {
    if source_type == "github"@ {
        Some(IngestionTarget::Github)
    } else if source_type == "jira"@ {
        Some(IngestionTarget::Jira)
    } else if has_prefix(source_type, "discourse"@) {
        Some(IngestionTarget::Discourse)
    } else {
        None
    }
}

pub fn ingestion_target(source_type: &str) -> (r: Option<IngestionTarget>)
    ensures
        r == target_of(source_type@),
{
    if str_eq(source_type, "github") {
        Some(IngestionTarget::Github)
    } else if str_eq(source_type, "jira") {
        Some(IngestionTarget::Jira)
    } else if starts_with(source_type, "discourse") {
        Some(IngestionTarget::Discourse)
    } else {
        None
    }
}

/// A call of the ingestion stage: the source, its handler, and the date to
/// backfill from (a plain run when there is none).
#[derive(Debug, Clone)]
pub struct IngestionCall {
    pub name: String,
    pub source_type: String,
    pub target: IngestionTarget,
    pub since_date: Option<String>,
}

pub open spec fn opt_view(o: Option<String>) -> Option<Seq<char>> {
    match o {
        Some(s) => Some(s@),
        None => None,
    }
}

/// The calls of the ingestion stage, one per source with a known handler,
/// in source order: `(name, source type, handler)`.
pub open spec fn calls_of(sources: Seq<(Seq<char>, Seq<char>)>) -> Seq<(Seq<char>, Seq<char>, IngestionTarget)>
    decreases sources.len(),
{
    if sources.len() == 0 {
        seq![]
    } else {
        let s = sources.last();
        calls_of(sources.drop_last()) + match target_of(s.1) {
            Some(t) => seq![(s.0, s.1, t)],
            None => seq![],
        }
    }
}

pub open spec fn call_view(c: IngestionCall) -> (Seq<char>, Seq<char>, IngestionTarget) {
    (c.name@, c.source_type@, c.target)
}

pub open spec fn sources_view(v: Seq<SourceInfo>) -> Seq<(Seq<char>, Seq<char>)> {
    v.map_values(|s: SourceInfo| source_view(s))
}

pub open spec fn calls_view(v: Seq<IngestionCall>) -> Seq<(Seq<char>, Seq<char>, IngestionTarget)> {
    v.map_values(|c: IngestionCall| call_view(c))
}

/// Plans the ingestion stage: every source whose type has a handler is
/// called, with the backfill date when one is given.
pub fn plan_ingestion_calls(sources: &Vec<SourceInfo>, since_date: &Option<String>) -> (r: Vec<IngestionCall>)
    ensures
        calls_view(r@) == calls_of(sources_view(sources@)),
        forall|i: int| 0 <= i < r@.len() ==> opt_view((#[trigger] r@[i]).since_date) == opt_view(*since_date),
{
    let ghost srcs = sources_view(sources@);
    let mut out: Vec<IngestionCall> = Vec::new();
    let mut i: usize = 0;
    while i < sources.len()
        invariant
            i <= sources@.len(),
            srcs == sources_view(sources@),
            calls_view(out@) == calls_of(srcs.take(i as int)),
            forall|k: int| 0 <= k < out@.len() ==> opt_view((#[trigger] out@[k]).since_date) == opt_view(*since_date),
        decreases sources.len() - i,
    {
        proof {
            assert(srcs.take(i + 1).drop_last() =~= srcs.take(i as int));
        }
        let s = &sources[i];
        match ingestion_target(s.source_type.as_str()) {
            Some(t) => {
                let ghost before = out@;
                let c = IngestionCall {
                    name: s.name.clone(),
                    source_type: s.source_type.clone(),
                    target: t,
                    since_date: match since_date {
                        Some(d) => Some(d.clone()),
                        None => None,
                    },
                };
                out.push(c);
                proof {
                    assert(srcs[i as int] == (s.name@, s.source_type@));
                    assert(calls_view(out@) =~= calls_view(before).push(call_view(c)));
                    assert(calls_of(srcs.take(i + 1)) =~= calls_of(srcs.take(i as int)).push(call_view(c)));
                }
            },
            None => {
                proof {
                    assert(calls_of(srcs.take(i + 1)) =~= calls_of(srcs.take(i as int)));
                }
            },
        }
        i = i + 1;
    }
    proof {
        assert(srcs.take(sources@.len() as int) =~= srcs);
    }
    out
}

/// Whether any source is a Discourse forum (which adds identity resolution).
pub open spec fn has_discourse_spec(sources: Seq<(Seq<char>, Seq<char>)>) -> bool {
    exists|i: int| 0 <= i < sources.len() && has_prefix((#[trigger] sources[i]).1, "discourse"@)
}

pub fn has_discourse_source(sources: &Vec<SourceInfo>) -> (r: bool)
    ensures
        r == has_discourse_spec(sources_view(sources@)),
{
    let mut i: usize = 0;
    while i < sources.len()
        invariant
            i <= sources@.len(),
            forall|k: int| 0 <= k < i ==> !has_prefix((#[trigger] sources_view(sources@)[k]).1, "discourse"@),
        decreases sources.len() - i,
    {
        if starts_with(sources[i].source_type.as_str(), "discourse") {
            proof {
                assert(sources_view(sources@)[i as int].1 == sources@[i as int].source_type@);
            }
            return true;
        }
        i = i + 1;
    }
    false
}

// ---------------------------------------------------------------------------
// The ingestion stage's outcome
// ---------------------------------------------------------------------------

pub open spec fn failed_names_of(results: Seq<HandlerResult>) -> Seq<Seq<char>>
    decreases results.len(),
{
    if results.len() == 0 {
        seq![]
    } else {
        failed_names_of(results.drop_last()) + if results.last().status == StageStatus::Failed {
            seq![results.last().name@]
        } else {
            seq![]
        }
    }
}

pub open spec fn names_view(v: Seq<String>) -> Seq<Seq<char>> {
    v.map_values(|s: String| s@)
}

/// The names of the handlers that failed, in order.
pub fn failed_handler_names(results: &Vec<HandlerResult>) -> (r: Vec<String>)
    ensures
        names_view(r@) == failed_names_of(results@),
{
    let mut out: Vec<String> = Vec::new();
    let mut i: usize = 0;
    while i < results.len()
        invariant
            i <= results@.len(),
            names_view(out@) == failed_names_of(results@.take(i as int)),
        decreases results.len() - i,
    {
        proof {
            assert(results@.take(i + 1).drop_last() =~= results@.take(i as int));
        }
        if results[i].status == StageStatus::Failed {
            let ghost before = out@;
            let n = results[i].name.clone();
            out.push(n);
            proof {
                assert(names_view(out@) =~= names_view(before).push(n@));
            }
        }
        i = i + 1;
    }
    proof {
        assert(results@.take(results@.len() as int) =~= results@);
    }
    out
}

/// `ingestion failed for: a, b`.
pub fn ingestion_failure_message(failed: &Vec<String>) -> (r: String)
    ensures
        r@ == "ingestion failed for: "@ + join_spec(names_view(failed@), ", "@),
{
    let mut m = owned("ingestion failed for: ");
    let joined = join_strings(failed, ", ");
    push_str(&mut m, joined.as_str());
    m
}

/// Closes the ingestion stage: its results are recorded; when any source
/// failed, the stages still pending are cancelled and the message the
/// pipeline fails with is returned.
pub fn close_ingestion_stage(stages: &mut Stages, results: &Vec<HandlerResult>) -> (r: Option<String>)
    ensures
        failed_names_of(results@).len() == 0 ==> r is None && final(stages)@ == update_named(
            old(stages)@,
            "ingestion"@,
            |e| with_results(e, results@),
        ),
        failed_names_of(results@).len() > 0 ==> (r matches Some(m) && m@ == "ingestion failed for: "@
            + join_spec(failed_names_of(results@), ", "@) && final(stages)@ == cancel_remaining(
            update_named(old(stages)@, "ingestion"@, |e| with_results(e, results@)),
        )),
{
    mark_stage_complete(stages, "ingestion", results.as_slice());
    let failed = failed_handler_names(results);
    if failed.len() > 0 {
        mark_remaining_cancelled(stages);
        Some(ingestion_failure_message(&failed))
    } else {
        None
    }
}

// ---------------------------------------------------------------------------
// The main branch
// ---------------------------------------------------------------------------

/// The stages of the main branch, in order, with their handlers' names.
pub open spec fn main_stage_spec(i: int) -> (Seq<char>, Seq<char>) {
    if i == 0 {
        ("metrics"@, "Metrics"@)
    } else if i == 1 {
        ("enrichment"@, "Enrichment"@)
    } else if i == 2 {
        ("embedding"@, "Embedding"@)
    } else {
        ("insights"@, "Insights"@)
    }
}

/// Number of stages in the main branch.
pub const MAIN_STAGES: usize = 4;

/// Stage name and handler name of the main branch's stage `i`.
pub fn main_stage(i: usize) -> (r: (&'static str, &'static str))
    requires
        i < MAIN_STAGES,
    ensures
        (r.0@, r.1@) == main_stage_spec(i as int),
{
    if i == 0 {
        ("metrics", "Metrics")
    } else if i == 1 {
        ("enrichment", "Enrichment")
    } else if i == 2 {
        ("embedding", "Embedding")
    } else {
        ("insights", "Insights")
    }
}

/// The document after a stage closed with one handler result: the result
/// recorded, and the pending stages cancelled when it failed.
pub open spec fn closed_stage(stages: Seq<crate::pipeline::stages::StageView>, stage: Seq<char>, hr: HandlerResult, ok: bool) -> Seq<
    crate::pipeline::stages::StageView,
> {
    let done = update_named(stages, stage, |e| with_results(e, seq![hr]));
    if ok {
        done
    } else {
        cancel_remaining(done)
    }
}

/// Closes a stage of the main branch with its handler's outcome. A failed
/// handler cancels the stages still pending and stops the branch; the
/// caller stops it too when cancellation was requested. Returns whether the
/// handler succeeded.
pub fn close_main_stage(stages: &mut Stages, i: usize, result: &Result<(), TerminalError>) -> (r: bool)
    requires
        i < MAIN_STAGES,
    ensures
        r == result is Ok,
        exists|hr: HandlerResult|
            {
                &&& hr.name@ == main_stage_spec(i as int).1
                &&& hr.status == (if r { StageStatus::Completed } else { StageStatus::Failed })
                &&& hr.items is None
                &&& final(stages)@ == closed_stage(old(stages)@, main_stage_spec(i as int).0, hr, r)
            },
{
    let (stage, handler) = main_stage(i);
    let hr = call_result(owned(handler), result);
    let ghost h = hr;
    let mut results: Vec<HandlerResult> = Vec::new();
    results.push(hr);
    proof {
        assert(results@ =~= seq![h]);
    }
    mark_stage_complete(stages, stage, results.as_slice());
    match result {
        Ok(()) => {
            proof {
                assert(stages@ == closed_stage(old(stages)@, main_stage_spec(i as int).0, h, true));
            }
            true
        },
        Err(_) => {
            mark_remaining_cancelled(stages);
            proof {
                assert(stages@ == closed_stage(old(stages)@, main_stage_spec(i as int).0, h, false));
            }
            false
        },
    }
}

// ---------------------------------------------------------------------------
// The course of a pipeline run
// ---------------------------------------------------------------------------

/// Status the pipeline is finalised with.
#[derive(Debug, Clone, Copy, PartialEq, Eq, Structural)]
pub enum FinalStatus {
    /// `failed`.
    Failed,
    /// `cancelled` (the pending stages are cancelled first).
    Cancelled,
    /// The status derived from the stages.
    Derived,
}

/// Where a pipeline run is.
#[derive(Debug, Clone, PartialEq, Eq)]
pub enum PipelinePhase {
    /// Run every source's ingestion.
    Ingestion,
    /// Check for a cancellation request after the ingestion.
    CancelCheckAfterIngestion,
    /// Dispatch identity resolution (Discourse sources only).
    IdentityResolution,
    /// Run stage `i` of the main branch.
    MainStage(usize),
    /// Check for a cancellation request after main stage `i` succeeded.
    CancelCheckAfterMain(usize),
    /// Finalise the pipeline.
    Finalize { status: FinalStatus, error: Option<String> },
}

/// What happened in a phase.
pub enum PipelineEvent {
    /// The ingestion stage closed, with the failure message if a source failed.
    IngestionClosed { failure: Option<String> },
    /// The answer to a cancellation check.
    CancelChecked { cancelled: bool },
    /// Identity resolution was dispatched.
    IdentityDispatched,
    /// A main stage's handler returned; `ok` when it succeeded.
    MainStageClosed { ok: bool },
    /// Persisting the progress of the main branch failed with this message.
    MainBranchError { message: String },
}

pub open spec fn phase_rank(p: PipelinePhase) -> int {
    match p {
        PipelinePhase::Ingestion => 0,
        PipelinePhase::CancelCheckAfterIngestion => 1,
        PipelinePhase::IdentityResolution => 2,
        PipelinePhase::MainStage(i) => 3 + 2 * i,
        PipelinePhase::CancelCheckAfterMain(i) => 4 + 2 * i,
        PipelinePhase::Finalize { .. } => 3 + 2 * MAIN_STAGES,
    }
}

pub open spec fn phase_ok(p: PipelinePhase) -> bool {
    match p {
        PipelinePhase::MainStage(i) => i < MAIN_STAGES,
        PipelinePhase::CancelCheckAfterMain(i) => i < MAIN_STAGES,
        _ => true,
    }
}

/// The phase after an event: a failed ingestion fails the pipeline with its
/// message; a cancellation after the ingestion cancels it; identity
/// resolution runs only with Discourse sources; the main stages run in
/// order, each followed by a cancellation check; a failed main stage, a
/// cancellation, or the end of the main branch finalise with the derived
/// status. Events that do not belong to the phase leave it unchanged.
pub open spec fn next_phase_spec(p: PipelinePhase, e: PipelineEvent, has_discourse: bool) -> PipelinePhase {
    match (p, e) {
        (PipelinePhase::Ingestion, PipelineEvent::IngestionClosed { failure }) => match failure {
            Some(m) => PipelinePhase::Finalize { status: FinalStatus::Failed, error: Some(m) },
            None => PipelinePhase::CancelCheckAfterIngestion,
        },
        (PipelinePhase::CancelCheckAfterIngestion, PipelineEvent::CancelChecked { cancelled }) => if cancelled {
            PipelinePhase::Finalize { status: FinalStatus::Cancelled, error: None }
        } else if has_discourse {
            PipelinePhase::IdentityResolution
        } else {
            PipelinePhase::MainStage(0)
        },
        (PipelinePhase::IdentityResolution, PipelineEvent::IdentityDispatched) => PipelinePhase::MainStage(0),
        (PipelinePhase::MainStage(i), PipelineEvent::MainStageClosed { ok }) => if ok {
            PipelinePhase::CancelCheckAfterMain(i)
        } else {
            PipelinePhase::Finalize { status: FinalStatus::Derived, error: None }
        },
        (PipelinePhase::MainStage(_), PipelineEvent::MainBranchError { message }) => PipelinePhase::Finalize {
            status: FinalStatus::Derived,
            error: Some(message),
        },
        (PipelinePhase::CancelCheckAfterMain(i), PipelineEvent::CancelChecked { cancelled }) => if cancelled || i
            + 1 >= MAIN_STAGES {
            PipelinePhase::Finalize { status: FinalStatus::Derived, error: None }
        } else {
            PipelinePhase::MainStage((i + 1) as usize)
        },
        (PipelinePhase::CancelCheckAfterMain(_), PipelineEvent::MainBranchError { message }) => PipelinePhase::Finalize {
            status: FinalStatus::Derived,
            error: Some(message),
        },
        (p, _) => p,
    }
}

/// Moves a pipeline run on after an event.
pub fn next_phase(p: PipelinePhase, e: PipelineEvent, has_discourse: bool) -> (r: PipelinePhase)
    requires
        phase_ok(p),
    ensures
        r == next_phase_spec(p, e, has_discourse),
        phase_ok(r),
{
    match (p, e) {
        (PipelinePhase::Ingestion, PipelineEvent::IngestionClosed { failure }) => match failure {
            Some(m) => PipelinePhase::Finalize { status: FinalStatus::Failed, error: Some(m) },
            None => PipelinePhase::CancelCheckAfterIngestion,
        },
        (PipelinePhase::CancelCheckAfterIngestion, PipelineEvent::CancelChecked { cancelled }) => if cancelled {
            PipelinePhase::Finalize { status: FinalStatus::Cancelled, error: None }
        } else if has_discourse {
            PipelinePhase::IdentityResolution
        } else {
            PipelinePhase::MainStage(0)
        },
        (PipelinePhase::IdentityResolution, PipelineEvent::IdentityDispatched) => PipelinePhase::MainStage(0),
        (PipelinePhase::MainStage(i), PipelineEvent::MainStageClosed { ok }) => if ok {
            PipelinePhase::CancelCheckAfterMain(i)
        } else {
            PipelinePhase::Finalize { status: FinalStatus::Derived, error: None }
        },
        (PipelinePhase::MainStage(_), PipelineEvent::MainBranchError { message }) => PipelinePhase::Finalize {
            status: FinalStatus::Derived,
            error: Some(message),
        },
        (PipelinePhase::CancelCheckAfterMain(i), PipelineEvent::CancelChecked { cancelled }) => if cancelled || i
            + 1 >= MAIN_STAGES {
            PipelinePhase::Finalize { status: FinalStatus::Derived, error: None }
        } else {
            PipelinePhase::MainStage(i + 1)
        },
        (PipelinePhase::CancelCheckAfterMain(_), PipelineEvent::MainBranchError { message }) => PipelinePhase::Finalize {
            status: FinalStatus::Derived,
            error: Some(message),
        },
        (p, _) => p,
    }
}

/// A pipeline run only moves forward, and reaches its finalisation after at
/// most eleven events that belong to its phases.
pub proof fn law_pipeline_moves_forward(p: PipelinePhase, e: PipelineEvent, has_discourse: bool)
    requires
        phase_ok(p),
    ensures
        next_phase_spec(p, e, has_discourse) == p || phase_rank(next_phase_spec(p, e, has_discourse))
            > phase_rank(p),
        phase_rank(next_phase_spec(p, e, has_discourse)) <= 3 + 2 * MAIN_STAGES,
{
}

/// A source that failed to ingest fails the pipeline with the ingestion
/// failure message; nothing of the main branch runs.
pub proof fn law_failed_ingestion_fails_pipeline(m: String, has_discourse: bool)
    ensures
        next_phase_spec(PipelinePhase::Ingestion, PipelineEvent::IngestionClosed { failure: Some(m) }, has_discourse)
            == (PipelinePhase::Finalize { status: FinalStatus::Failed, error: Some(m) }),
{
}

/// How the run record of a pipeline is closed.
#[derive(Debug, Clone, PartialEq, Eq)]
pub enum RunRecordEnd {
    /// Failed with this message.
    Fail { message: String },
    Complete,
}

/// A `failed` pipeline fails its run record with its error (default
/// `pipeline failed`); any other status completes it.
pub fn run_record_end(status: &str, error: &Option<String>) -> (r: RunRecordEnd)
    ensures
        status@ == "failed"@ ==> (r matches RunRecordEnd::Fail { message } && message@ == match error {
            Some(e) => e@,
            None => "pipeline failed"@,
        }),
        status@ != "failed"@ ==> r == RunRecordEnd::Complete,
{
    if str_eq(status, "failed") {
        RunRecordEnd::Fail {
            message: match error {
                Some(e) => e.clone(),
                None => owned("pipeline failed"),
            },
        }
    } else {
        RunRecordEnd::Complete
    }
}

} // verus!
