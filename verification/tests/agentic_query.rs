use ps_workers::reasoning::agentic_query::{
    advance_query, announced_content_type, artifact_from_tool_output, artifact_upload, classify_session, compaction_model,
    first_query_step, is_compact_command, parse_query_ids, parse_session_key, recover_answer, AgentEvent,
    QueryProgress, QueryStep, QueryStream, RecordKind, SessionMessage, SessionState, StreamAction,
};
use ps_workers::reasoning::trace::ConversationEvent;

#[test]
fn query_ids_must_be_uuids() {
    let ok = parse_query_ids("00000000-0000-0000-0000-000000000001", "00000000-0000-0000-0000-000000000002");
    assert_eq!(ok, Ok((1, 2)));
    let bad = parse_query_ids("nope", "00000000-0000-0000-0000-000000000002").unwrap_err();
    assert!(bad.starts_with("invalid conversation_id: "));
    let bad = parse_query_ids("00000000-0000-0000-0000-000000000001", "x").unwrap_err();
    assert!(bad.starts_with("invalid user_id: "));
}

#[test]
fn query_run_happy_path() {
    let mut step = first_query_step();
    let mut seen = vec![step];
    loop {
        match advance_query(step, &Ok(())) {
            QueryProgress::Next(s) => {
                step = s;
                seen.push(s);
            }
            QueryProgress::Complete => break,
            QueryProgress::Abort(m) => panic!("unexpected abort: {m}"),
        }
    }
    assert_eq!(seen.len(), 13);
    assert_eq!(seen[0], QueryStep::MarkRunning);
    assert_eq!(*seen.last().unwrap(), QueryStep::MarkCompleted);
}

#[test]
fn query_run_failures() {
    assert_eq!(
        advance_query(QueryStep::EnsurePod, &Err("quota".into())),
        QueryProgress::Abort("failed to create agent pod: quota".into())
    );
    assert_eq!(
        advance_query(QueryStep::CheckContainers, &Err("anything".into())),
        QueryProgress::Abort("agent containers not configured".into())
    );
    assert_eq!(
        advance_query(QueryStep::AwaitPod, &Err("timed out".into())),
        QueryProgress::Abort("pod failed to start: timed out".into())
    );
    // A failed query is recorded, not raised.
    assert_eq!(advance_query(QueryStep::RunCore, &Err("boom".into())), QueryProgress::Next(QueryStep::WriteErrorEvent));
    assert_eq!(advance_query(QueryStep::WriteErrorEvent, &Ok(())), QueryProgress::Next(QueryStep::MarkFailed));
    assert_eq!(advance_query(QueryStep::MarkFailed, &Ok(())), QueryProgress::Complete);
    // The cleanup never fails the run.
    assert_eq!(advance_query(QueryStep::CleanupEvents, &Err("x".into())), QueryProgress::Next(QueryStep::UpdateTotals));
}

fn msg(role: &str, texts: &[&str]) -> SessionMessage {
    SessionMessage { role: role.into(), texts: texts.iter().map(|t| t.to_string()).collect() }
}

#[test]
fn session_classification() {
    let q = "  How many PRs?  ".to_string();
    let listing = Ok(vec![msg("assistant", &["How many PRs?"]), msg("user", &["How many PRs?\n"])]);
    assert_eq!(classify_session(&listing, &q), SessionState::QuestionAlreadySent);
    let listing = Ok(vec![msg("user", &["Something else"])]);
    assert_eq!(classify_session(&listing, &q), SessionState::Ready);
    let listing: Result<Vec<SessionMessage>, String> = Err("HTTP 404 Not Found".into());
    assert_eq!(classify_session(&listing, &q), SessionState::Dead);
    let listing: Result<Vec<SessionMessage>, String> = Err("connection reset".into());
    assert_eq!(classify_session(&listing, &q), SessionState::Ready);
}

#[test]
fn compact_command_detection() {
    assert!(is_compact_command("/compact"));
    assert!(is_compact_command("  /COMPACT \n"));
    assert!(!is_compact_command("/compact now"));
}

#[test]
fn compaction_model_split() {
    assert_eq!(compaction_model(""), ("google".into(), "gemini-2.5-flash".into()));
    assert_eq!(compaction_model("acme/model-x"), ("acme".into(), "model-x".into()));
    assert_eq!(compaction_model("plain-model"), ("google".into(), "plain-model".into()));
}

fn event(t: &str, text: Option<&str>) -> ConversationEvent {
    ConversationEvent {
        event_type: t.into(),
        step_seq: None,
        step_id: None,
        text: text.map(String::from),
        part_index: None,
        tool_name: None,
        call_id: None,
        arguments_json: None,
        result_summary: None,
        duration_ms: None,
        success: None,
    }
}

#[test]
fn answer_recovered_on_replay() {
    let events = vec![
        event("partial_answer", Some("first")),
        event("tool_call_completed", None),
        event("partial_answer", Some("final answer")),
        event("partial_answer", None),
        event("tool_call_completed", None),
    ];
    assert_eq!(recover_answer(String::new(), 0, &events), ("final answer".into(), 2));
    // A streamed answer is kept.
    assert_eq!(recover_answer("live".into(), 0, &events), ("live".into(), 0));
    // A known tool call count is kept.
    assert_eq!(recover_answer(String::new(), 7, &events), ("final answer".into(), 7));
    // Nothing to recover from.
    assert_eq!(recover_answer(String::new(), 0, &vec![]), (String::new(), 0));
}

#[test]
fn stream_events_are_recorded() {
    let mut s = QueryStream::new();
    assert!(s.has_room());
    match s.absorb(&AgentEvent::ToolCallStarted { call_id: "c1".into() }) {
        StreamAction::Record { kind, step: Some(id) } => {
            assert_eq!(kind, RecordKind::ToolCallStarted);
            assert_eq!(id.step_id, "tool-c1");
            assert_eq!(id.step_seq, 0);
        }
        _ => panic!("expected a record"),
    }
    match s.absorb(&AgentEvent::ToolCallCompleted { call_id: "c1".into() }) {
        StreamAction::Record { kind, step: Some(id) } => {
            assert_eq!(kind.as_str(), "tool_call_completed");
            assert_eq!(id.step_seq, 0);
        }
        _ => panic!("expected a record"),
    }
    assert_eq!(s.tool_calls, 1);
    assert!(matches!(s.absorb(&AgentEvent::PartialAnswer { text: "42".into() }), StreamAction::Record { kind: RecordKind::PartialAnswer, step: None }));
    assert_eq!(s.answer_text, "42");
    match s.absorb(&AgentEvent::Thinking { part_index: 0, text: "hmm".into() }) {
        StreamAction::Record { step: Some(id), .. } => assert_eq!(id.step_seq, 1),
        _ => panic!("expected a record"),
    }
    assert!(matches!(s.absorb(&AgentEvent::Other), StreamAction::Ignore));
    assert!(matches!(s.absorb(&AgentEvent::SessionIdle), StreamAction::Stop));
}

#[test]
fn artifact_uploads() {
    let a = artifact_upload(&Some("conversations/abc/report.pdf".into()), &None, &None, None);
    assert_eq!(a.artifact_key, "abc/report.pdf");
    assert_eq!(a.display_name, "artifact");
    assert_eq!(a.size_bytes, 0);
    let a = artifact_upload(&Some("other/x".into()), &Some("X".into()), &Some("text/plain".into()), Some(12));
    assert_eq!(a.artifact_key, "other/x");
    assert_eq!(a.display_name, "X");
    assert_eq!(a.content_type.as_deref(), Some("text/plain"));
    assert_eq!(a.size_bytes, 12);
    assert_eq!(announced_content_type(&None), "application/octet-stream");
}

#[test]
fn artifact_from_tool_output_reads_the_upload_result() {
    let out = r#"{"artifact_key":"conversations/abc/report.md","display_name":"Report","content_type":"text/markdown","size_bytes":2048}"#;
    let a = artifact_from_tool_output("prism_upload_artifact", out).unwrap();
    assert_eq!(a.artifact_key, "abc/report.md");
    assert_eq!(a.display_name, "Report");
    assert_eq!(a.content_type.as_deref(), Some("text/markdown"));
    assert_eq!(a.size_bytes, 2048);
}

#[test]
fn artifact_from_tool_output_defaults_missing_fields() {
    let a = artifact_from_tool_output("prism_upload_artifact", r#"{"artifact_key":"plain/key"}"#).unwrap();
    assert_eq!(a.artifact_key, "plain/key");
    assert_eq!(a.display_name, "artifact");
    assert_eq!(a.content_type, None);
    assert_eq!(a.size_bytes, 0);
    let b = artifact_from_tool_output("prism_upload_artifact", "{}").unwrap();
    assert_eq!(b.artifact_key, "");
}

#[test]
fn artifact_from_tool_output_ignores_other_tools_and_bad_json() {
    assert!(artifact_from_tool_output("search", r#"{"artifact_key":"k"}"#).is_none());
    assert!(artifact_from_tool_output("prism_upload_artifact", "not json").is_none());
}

#[test]
fn session_key_must_be_a_uuid() {
    assert_eq!(parse_session_key("00000000-0000-0000-0000-00000000000a").unwrap(), 10);
    let e = parse_session_key("bogus").unwrap_err();
    let text = e.to_string();
    assert!(text.contains("invalid key: "), "{text}");
}
