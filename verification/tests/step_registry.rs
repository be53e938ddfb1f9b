use ps_workers::step_registry::StepRegistry;

#[test]
fn new_thinking_block_gets_identity() {
    let mut reg = StepRegistry::new();
    let id = reg.thinking_step(0, "I think we should");
    assert_eq!(id.step_id, "think-0-0");
    assert_eq!(id.step_seq, 0);
}

#[test]
fn cumulative_thinking_reuses_identity() {
    let mut reg = StepRegistry::new();
    let id1 = reg.thinking_step(0, "I think");
    let id2 = reg.thinking_step(0, "I think we should");
    assert_eq!(id1.step_id, id2.step_id);
    assert_eq!(id1.step_seq, id2.step_seq);
}

#[test]
fn recycled_part_index_gets_new_generation() {
    let mut reg = StepRegistry::new();
    let id1 = reg.thinking_step(0, "First thought");
    // A tool call between thinking blocks advances the sequence.
    let _ = reg.tool_started("tool-1");
    let id2 = reg.thinking_step(0, "Completely different thought");
    assert_eq!(id1.step_id, "think-0-0");
    assert_eq!(id2.step_id, "think-0-1");
    assert_ne!(id1.step_seq, id2.step_seq);
}

#[test]
fn tool_started_and_completed_share_identity() {
    let mut reg = StepRegistry::new();
    let started = reg.tool_started("abc-123");
    let completed = reg.tool_completed("abc-123");
    assert_eq!(started.step_id, completed.step_id);
    assert_eq!(started.step_seq, completed.step_seq);
}

#[test]
fn tool_started_is_idempotent() {
    let mut reg = StepRegistry::new();
    let first = reg.tool_started("abc-123");
    let second = reg.tool_started("abc-123");
    assert_eq!(first.step_id, second.step_id);
    assert_eq!(first.step_seq, second.step_seq);
    // The next tool still gets the next sequence number.
    let other = reg.tool_started("def-456");
    assert_eq!(other.step_seq, first.step_seq + 1);
}

#[test]
fn tool_completed_without_started_gets_new_seq() {
    let mut reg = StepRegistry::new();
    let completed = reg.tool_completed("orphan");
    assert_eq!(completed.step_id, "tool-orphan");
    assert_eq!(completed.step_seq, 0);
}

#[test]
fn interleaved_thinking_and_tools_preserve_order() {
    let mut reg = StepRegistry::new();
    let t0 = reg.thinking_step(0, "Thinking about query");
    let tool1 = reg.tool_started("call-1");
    let t0_update = reg.thinking_step(0, "Thinking about query structure");
    let tool1_done = reg.tool_completed("call-1");
    let t1 = reg.thinking_step(1, "Now analyzing results");

    assert_eq!(t0.step_seq, t0_update.step_seq);
    assert_eq!(tool1.step_seq, tool1_done.step_seq);
    assert!(t0.step_seq < tool1.step_seq);
    assert!(tool1.step_seq < t1.step_seq);
}

#[test]
fn seq_is_monotonically_increasing() {
    let mut reg = StepRegistry::new();
    let ids: Vec<i32> = (0..5).map(|i| reg.tool_started(&format!("call-{i}")).step_seq).collect();
    for window in ids.windows(2) {
        assert!(window[0] < window[1]);
    }
}

#[test]
fn thinking_prefix_shrink_reuses_identity() {
    let mut reg = StepRegistry::new();
    let id1 = reg.thinking_step(2, "Long reasoning text");
    let id2 = reg.thinking_step(2, "Long");
    assert_eq!(id1.step_id, "think-2-0");
    assert_eq!(id1.step_id, id2.step_id);
    assert_eq!(id1.step_seq, id2.step_seq);
}

#[test]
fn registry_reports_room() {
    let reg = StepRegistry::new();
    assert!(reg.has_room());
}

#[test]
fn kth_new_step_gets_seq_k() {
    let mut reg = StepRegistry::new();
    let a = reg.tool_started("a");
    let think = reg.thinking_step(0, "hmm");
    let a_done = reg.tool_completed("a");
    let think_more = reg.thinking_step(0, "hmm, yes");
    let b = reg.tool_completed("b");
    let other = reg.thinking_step(0, "something else");
    assert_eq!((a.step_seq, think.step_seq, b.step_seq, other.step_seq), (0, 1, 2, 3));
    assert_eq!(a_done.step_seq, 0);
    assert_eq!(think_more.step_seq, 1);
    assert_eq!(other.step_id, "think-0-1");
}
