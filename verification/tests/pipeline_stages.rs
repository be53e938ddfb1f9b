use ps_workers::pipeline::stages::{
    build_initial_stages, derive_pipeline_status, derive_stage_status, mark_remaining_cancelled,
    mark_stage_complete, mark_stage_running, stage_branch, HandlerEntry, HandlerResult,
    StageEntry, StageStatus, Stages,
};

fn result(name: &str, status: StageStatus, items: Option<i32>, error: Option<&str>) -> HandlerResult {
    HandlerResult { name: name.into(), status, items, error: error.map(String::from) }
}

fn entry(name: &str, status: StageStatus, handlers: Vec<(&str, StageStatus)>) -> StageEntry {
    StageEntry {
        name: name.into(),
        status: Some(status),
        branch: None,
        handlers: Some(
            handlers
                .into_iter()
                .map(|(n, s)| HandlerEntry { name: n.into(), status: s, items: None, error: None })
                .collect(),
        ),
    }
}

fn bare(name: &str, status: StageStatus) -> StageEntry {
    StageEntry { name: name.into(), status: Some(status), branch: None, handlers: None }
}

fn find<'a>(stages: &'a Stages, name: &str) -> Option<&'a StageEntry> {
    stages.entries.iter().find(|e| e.name == name)
}

#[test]
fn derive_stage_status_all_completed() {
    let results = vec![
        result("Github", StageStatus::Completed, Some(10), None),
        result("Jira", StageStatus::Completed, Some(5), None),
    ];
    assert_eq!(derive_stage_status(&results), StageStatus::Completed);
}

#[test]
fn derive_stage_status_all_failed() {
    let results = vec![
        result("Github", StageStatus::Failed, None, Some("auth error")),
        result("Jira", StageStatus::Failed, None, Some("timeout")),
    ];
    assert_eq!(derive_stage_status(&results), StageStatus::Failed);
}

#[test]
fn derive_stage_status_partial_failure() {
    let results = vec![
        result("Github", StageStatus::Completed, Some(10), None),
        result("Jira", StageStatus::Failed, None, Some("auth error")),
    ];
    // Partial failure is still completed at stage level (warnings at pipeline level).
    assert_eq!(derive_stage_status(&results), StageStatus::Completed);
}

#[test]
fn derive_stage_status_empty() {
    assert_eq!(derive_stage_status(&[]), StageStatus::Completed);
}

#[test]
fn derive_pipeline_status_all_completed() {
    let stages = Stages {
        entries: vec![
            entry("ingestion", StageStatus::Completed, vec![("Github", StageStatus::Completed)]),
            entry("metrics", StageStatus::Completed, vec![("Metrics", StageStatus::Completed)]),
        ],
    };
    assert_eq!(derive_pipeline_status(&stages), "completed");
}

#[test]
fn derive_pipeline_status_with_handler_failure() {
    let mut ingestion = entry(
        "ingestion",
        StageStatus::Completed,
        vec![("Github", StageStatus::Completed), ("Jira", StageStatus::Failed)],
    );
    if let Some(hs) = ingestion.handlers.as_mut() {
        hs[1].error = Some("auth".into());
    }
    let stages = Stages {
        entries: vec![
            ingestion,
            entry("metrics", StageStatus::Completed, vec![("Metrics", StageStatus::Completed)]),
        ],
    };
    assert_eq!(derive_pipeline_status(&stages), "completed_with_warnings");
}

#[test]
fn derive_pipeline_status_stage_failed() {
    let stages = Stages {
        entries: vec![
            entry("ingestion", StageStatus::Failed, vec![("Github", StageStatus::Failed)]),
            entry("metrics", StageStatus::Skipped, vec![]),
        ],
    };
    assert_eq!(derive_pipeline_status(&stages), "failed");
}

#[test]
fn derive_pipeline_status_cancelled() {
    let stages = Stages {
        entries: vec![
            entry("ingestion", StageStatus::Completed, vec![]),
            entry("metrics", StageStatus::Cancelled, vec![]),
        ],
    };
    assert_eq!(derive_pipeline_status(&stages), "cancelled");
}

#[test]
fn build_initial_stages_full() {
    let handler_names: Vec<(&str, Vec<String>)> = vec![
        ("team_sync", vec!["Github Team Sync".into()]),
        ("ingestion", vec!["Github".into(), "Jira".into(), "Discourse".into()]),
        ("metrics", vec!["Metrics".into()]),
        ("enrichment", vec!["Enrichment".into()]),
        ("embedding", vec!["Embedding".into()]),
        ("insights", vec!["Insights".into()]),
        ("identity_resolution", vec!["Identity Resolution".into()]),
    ];
    let stages = build_initial_stages(true, true, &handler_names);

    assert_eq!(find(&stages, "team_sync").unwrap().status, Some(StageStatus::Pending));
    assert_eq!(find(&stages, "ingestion").unwrap().handlers.as_ref().unwrap().len(), 3);
    assert_eq!(find(&stages, "identity_resolution").unwrap().branch.as_deref(), Some("identity"));
    assert_eq!(find(&stages, "metrics").unwrap().branch.as_deref(), Some("main"));
}

#[test]
fn build_initial_stages_no_github_no_discourse() {
    let handler_names: Vec<(&str, Vec<String>)> = vec![
        ("ingestion", vec!["Jira".into()]),
        ("metrics", vec!["Metrics".into()]),
        ("enrichment", vec!["Enrichment".into()]),
        ("embedding", vec!["Embedding".into()]),
        ("insights", vec!["Insights".into()]),
    ];
    let stages = build_initial_stages(false, false, &handler_names);

    assert!(find(&stages, "team_sync").is_none());
    assert!(find(&stages, "identity_resolution").is_none());
    assert_eq!(find(&stages, "ingestion").unwrap().handlers.as_ref().unwrap().len(), 1);
}

#[test]
fn mark_stage_running_updates_status() {
    let mut stages = Stages { entries: vec![bare("ingestion", StageStatus::Pending)] };
    mark_stage_running(&mut stages, "ingestion");
    assert_eq!(find(&stages, "ingestion").unwrap().status, Some(StageStatus::Running));
}

#[test]
fn mark_stage_complete_with_results() {
    let mut stages = Stages { entries: vec![bare("ingestion", StageStatus::Running)] };
    let results = vec![
        result("Github", StageStatus::Completed, Some(142), None),
        result("Jira", StageStatus::Failed, None, Some("auth expired")),
    ];
    mark_stage_complete(&mut stages, "ingestion", &results);

    let e = find(&stages, "ingestion").unwrap();
    assert_eq!(e.status, Some(StageStatus::Completed));
    let handlers = e.handlers.as_ref().unwrap();
    assert_eq!(handlers.len(), 2);
    assert_eq!(handlers[0].items, Some(142));
    assert_eq!(handlers[1].error.as_deref(), Some("auth expired"));
}

#[test]
fn mark_remaining_cancelled_only_affects_pending() {
    let mut stages = Stages {
        entries: vec![
            bare("ingestion", StageStatus::Completed),
            bare("metrics", StageStatus::Running),
            bare("enrichment", StageStatus::Pending),
            bare("embedding", StageStatus::Pending),
        ],
    };
    mark_remaining_cancelled(&mut stages);

    assert_eq!(find(&stages, "ingestion").unwrap().status, Some(StageStatus::Completed));
    assert_eq!(find(&stages, "metrics").unwrap().status, Some(StageStatus::Running));
    assert_eq!(find(&stages, "enrichment").unwrap().status, Some(StageStatus::Cancelled));
    assert_eq!(find(&stages, "embedding").unwrap().status, Some(StageStatus::Cancelled));
}

#[test]
fn stage_branches() {
    assert_eq!(stage_branch("identity_resolution"), "identity");
    assert_eq!(stage_branch("metrics"), "main");
    assert_eq!(stage_branch("insights"), "main");
}

#[test]
fn stage_status_names() {
    assert_eq!(StageStatus::Pending.as_str(), "pending");
    assert_eq!(StageStatus::Cancelled.as_str(), "cancelled");
    assert_eq!(StageStatus::Completed.as_str(), "completed");
}
