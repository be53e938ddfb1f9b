use ps_workers::pipeline::stages::{HandlerResult, SourceInfo, StageEntry, StageStatus, Stages};
use ps_workers::pipeline::workflow::{
    close_ingestion_stage, close_main_stage, has_discourse_source, main_stage, next_phase,
    parse_pipeline_id,
    plan_ingestion_calls, run_record_end, FinalStatus, IngestionTarget, PipelineEvent,
    PipelinePhase, RunRecordEnd,
};
use restate_sdk::errors::TerminalError;

fn src(name: &str, t: &str) -> SourceInfo {
    SourceInfo { name: name.into(), source_type: t.into() }
}

#[test]
fn ingestion_calls_per_source_type() {
    let sources = vec![
        src("GitHub", "github"),
        src("Forum", "discourse_ubuntu"),
        src("Mystery", "gitlab"),
        src("Jira", "jira"),
    ];
    let calls = plan_ingestion_calls(&sources, &Some("2025-01-01".into()));
    assert_eq!(calls.len(), 3);
    assert_eq!(calls[0].target, IngestionTarget::Github);
    assert_eq!(calls[1].target, IngestionTarget::Discourse);
    assert_eq!(calls[1].name, "Forum");
    assert_eq!(calls[2].target, IngestionTarget::Jira);
    assert!(calls.iter().all(|c| c.since_date.as_deref() == Some("2025-01-01")));
    assert!(has_discourse_source(&sources));
    assert!(!has_discourse_source(&vec![src("GitHub", "github")]));
}

fn pending(name: &str) -> StageEntry {
    StageEntry { name: name.into(), status: Some(StageStatus::Pending), branch: None, handlers: None }
}

fn hr(name: &str, status: StageStatus) -> HandlerResult {
    HandlerResult { name: name.into(), status, items: None, error: None }
}

#[test]
fn failed_ingestion_cancels_the_rest() {
    let mut stages = Stages { entries: vec![pending("ingestion"), pending("metrics")] };
    let results = vec![hr("GitHub", StageStatus::Failed), hr("Jira", StageStatus::Completed), hr("Forum", StageStatus::Failed)];
    let msg = close_ingestion_stage(&mut stages, &results);
    assert_eq!(msg.as_deref(), Some("ingestion failed for: GitHub, Forum"));
    assert_eq!(stages.entries[0].status, Some(StageStatus::Completed));
    assert_eq!(stages.entries[1].status, Some(StageStatus::Cancelled));

    let mut stages = Stages { entries: vec![pending("ingestion"), pending("metrics")] };
    assert_eq!(close_ingestion_stage(&mut stages, &vec![hr("Jira", StageStatus::Completed)]), None);
    assert_eq!(stages.entries[1].status, Some(StageStatus::Pending));
}

#[test]
fn main_stages_run_in_order() {
    assert_eq!(main_stage(0), ("metrics", "Metrics"));
    assert_eq!(main_stage(3), ("insights", "Insights"));
    let mut stages = Stages { entries: vec![pending("metrics"), pending("enrichment")] };
    assert!(close_main_stage(&mut stages, 0, &Ok(())));
    assert_eq!(stages.entries[0].status, Some(StageStatus::Completed));
    assert_eq!(stages.entries[1].status, Some(StageStatus::Pending));
    let mut stages = Stages { entries: vec![pending("metrics"), pending("enrichment")] };
    assert!(!close_main_stage(&mut stages, 0, &Err(TerminalError::new("down"))));
    assert_eq!(stages.entries[0].status, Some(StageStatus::Failed));
    assert_eq!(stages.entries[1].status, Some(StageStatus::Cancelled));
}

#[test]
fn pipeline_phases() {
    let p = next_phase(PipelinePhase::Ingestion, PipelineEvent::IngestionClosed { failure: None }, true);
    assert_eq!(p, PipelinePhase::CancelCheckAfterIngestion);
    let p = next_phase(p, PipelineEvent::CancelChecked { cancelled: false }, true);
    assert_eq!(p, PipelinePhase::IdentityResolution);
    let p = next_phase(p, PipelineEvent::IdentityDispatched, true);
    assert_eq!(p, PipelinePhase::MainStage(0));
    let p = next_phase(p, PipelineEvent::MainStageClosed { ok: true }, true);
    assert_eq!(p, PipelinePhase::CancelCheckAfterMain(0));
    let p = next_phase(p, PipelineEvent::CancelChecked { cancelled: false }, true);
    assert_eq!(p, PipelinePhase::MainStage(1));
    let p = next_phase(p, PipelineEvent::MainStageClosed { ok: false }, true);
    assert_eq!(p, PipelinePhase::Finalize { status: FinalStatus::Derived, error: None });

    let p = next_phase(
        PipelinePhase::Ingestion,
        PipelineEvent::IngestionClosed { failure: Some("ingestion failed for: A".into()) },
        false,
    );
    assert_eq!(p, PipelinePhase::Finalize { status: FinalStatus::Failed, error: Some("ingestion failed for: A".into()) });
    let p = next_phase(PipelinePhase::CancelCheckAfterIngestion, PipelineEvent::CancelChecked { cancelled: true }, false);
    assert_eq!(p, PipelinePhase::Finalize { status: FinalStatus::Cancelled, error: None });
    let p = next_phase(PipelinePhase::CancelCheckAfterIngestion, PipelineEvent::CancelChecked { cancelled: false }, false);
    assert_eq!(p, PipelinePhase::MainStage(0));
    let p = next_phase(PipelinePhase::CancelCheckAfterMain(3), PipelineEvent::CancelChecked { cancelled: false }, false);
    assert_eq!(p, PipelinePhase::Finalize { status: FinalStatus::Derived, error: None });
}

#[test]
fn run_record_closing() {
    assert_eq!(run_record_end("failed", &None), RunRecordEnd::Fail { message: "pipeline failed".into() });
    assert_eq!(run_record_end("failed", &Some("x".into())), RunRecordEnd::Fail { message: "x".into() });
    assert_eq!(run_record_end("completed_with_warnings", &None), RunRecordEnd::Complete);
}

#[test]
fn pipeline_id_must_be_a_uuid() {
    assert_eq!(parse_pipeline_id("00000000-0000-0000-0000-000000000100").unwrap(), 256);
    let e = parse_pipeline_id("12").unwrap_err();
    assert!(e.to_string().contains("invalid pipeline ID: "));
}
