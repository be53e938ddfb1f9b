use ps_workers::reasoning::trace::{derive_trace_from_events, ConversationEvent, TraceKind};

fn ev(t: &str, seq: Option<i32>, id: Option<&str>) -> ConversationEvent {
    ConversationEvent {
        event_type: t.into(),
        step_seq: seq,
        step_id: id.map(String::from),
        text: None,
        part_index: None,
        tool_name: None,
        call_id: None,
        arguments_json: None,
        result_summary: None,
        duration_ms: None,
        success: None,
    }
}

#[test]
fn trace_orders_steps_by_seq() {
    let mut t1 = ev("thinking", Some(2), Some("think-0-0"));
    t1.text = Some("first".into());
    t1.part_index = Some(0);
    let mut tool = ev("tool_call_started", Some(1), Some("tool-a"));
    tool.tool_name = Some("search".into());
    tool.call_id = Some("a".into());
    let mut done = ev("tool_call_completed", Some(1), Some("tool-a"));
    done.result_summary = Some("\"3 hits\"".into());
    done.duration_ms = Some("120".into());
    let mut t2 = ev("thinking", Some(2), Some("think-0-0"));
    t2.text = Some("first and more".into());
    t2.part_index = Some(0);
    let events = vec![t1, tool, ev("partial_answer", Some(9), Some("x")), done, t2, ev("thinking", None, Some("y"))];

    let trace = derive_trace_from_events(&events);
    assert_eq!(trace.len(), 2);
    match &trace[0].kind {
        TraceKind::Tool { tool_name, call_id, arguments } => {
            assert_eq!(tool_name, "search");
            assert_eq!(call_id, "a");
            assert_eq!(arguments, "{}");
        }
        _ => panic!("expected the tool step first"),
    }
    let outcome = trace[0].outcome.as_ref().unwrap();
    assert_eq!(outcome.result_summary, "\"3 hits\"");
    assert_eq!(outcome.duration_ms, "120");
    assert_eq!(outcome.success, "true");
    match &trace[1].kind {
        TraceKind::Reasoning { text, part_index, arguments } => {
            // Later thinking events carry the fuller text.
            assert_eq!(text, "first and more");
            assert_eq!(*part_index, 0);
            assert!(arguments.is_none());
        }
        _ => panic!("expected the reasoning step second"),
    }
    assert_eq!(trace[1].step_id, "think-0-0");
}

#[test]
fn trace_started_does_not_overwrite_and_completed_needs_a_step() {
    let mut a = ev("tool_call_started", Some(4), Some("tool-a"));
    a.tool_name = Some("first".into());
    let mut b = ev("tool_call_started", Some(4), Some("tool-a"));
    b.tool_name = Some("second".into());
    let orphan = ev("tool_call_completed", Some(7), Some("tool-b"));
    let trace = derive_trace_from_events(&vec![a, b, orphan]);
    assert_eq!(trace.len(), 1);
    match &trace[0].kind {
        TraceKind::Tool { tool_name, .. } => assert_eq!(tool_name, "first"),
        _ => panic!("expected a tool step"),
    }
    assert!(trace[0].outcome.is_none());
}

#[test]
fn trace_started_event_with_arguments_updates_existing_step() {
    let mut pending = ev("tool_call_started", Some(3), Some("tool-c"));
    pending.tool_name = Some("grep".into());
    pending.call_id = Some("c".into());
    let mut running = ev("tool_call_started", Some(3), Some("tool-c"));
    running.tool_name = Some("ignored".into());
    running.arguments_json = Some("{\"q\":\"x\"}".into());
    let mut empty_args = ev("tool_call_started", Some(3), Some("tool-c"));
    empty_args.arguments_json = Some("{}".into());
    let mut think = ev("thinking", Some(5), Some("think-1-0"));
    think.text = Some("hm".into());
    let mut on_think = ev("tool_call_started", Some(5), Some("think-1-0"));
    on_think.arguments_json = Some("[1]".into());
    let trace = derive_trace_from_events(&vec![pending, running, empty_args, think, on_think]);
    assert_eq!(trace.len(), 2);
    match &trace[0].kind {
        TraceKind::Tool { tool_name, call_id, arguments } => {
            assert_eq!(tool_name, "grep");
            assert_eq!(call_id, "c");
            assert_eq!(arguments, "{\"q\":\"x\"}");
        }
        _ => panic!("expected a tool step"),
    }
    match &trace[1].kind {
        TraceKind::Reasoning { text, arguments, .. } => {
            assert_eq!(text, "hm");
            assert_eq!(arguments.as_deref(), Some("[1]"));
        }
        _ => panic!("expected a reasoning step"),
    }
}
