use ps_workers::ingestion::batch::{
    ingestion_method, BatchAction, BatchStep, ChunkCoordinator, ChunkProgress, ChunkResult,
    CoordinatorNext, FetchStoreLoop, SkippedDiffAction,
};
use ps_workers::model::Platform;

#[test]
fn chunk_loop_stores_and_stops_at_the_limit() {
    let mut l = FetchStoreLoop::new("c0".into(), 2, 10);
    let action = BatchAction::Process {
        item_count: 3,
        has_watermark: true,
        next_cursor: Some("c1".into()),
        etag_cursor: None,
        skipped_diffs: SkippedDiffAction::NoRetry,
    };
    assert_eq!(l.begin_batch(&action), BatchStep::Store);
    assert_eq!(l.record_stored(3, true), Some(13));
    assert_eq!(l.end_batch(Some("c1".into())), ChunkProgress::Continue);
    assert_eq!(l.cursor, "c1");
    assert_eq!(l.record_stored(2, false), None);
    assert_eq!(l.end_batch(Some("c2".into())), ChunkProgress::LimitReached);
    assert_eq!(l.total_items, 5);
    assert_eq!(l.global_items(), 15);
}

#[test]
fn chunk_loop_sleeps_and_completes() {
    let mut l = FetchStoreLoop::new("c0".into(), 10, 0);
    let sleep = BatchAction::SleepForRateLimit { wait_secs: 30, etag_cursor: Some("e1".into()) };
    assert_eq!(l.begin_batch(&sleep), BatchStep::Sleep { wait_secs: 30 });
    assert_eq!(l.cursor, "e1");
    let empty = BatchAction::Process {
        item_count: 0,
        has_watermark: false,
        next_cursor: None,
        etag_cursor: None,
        skipped_diffs: SkippedDiffAction::NoRetry,
    };
    assert_eq!(l.begin_batch(&empty), BatchStep::SkipStore);
    assert_eq!(l.end_batch(None), ChunkProgress::Complete);
    assert_eq!(l.cursor, "e1");
}

#[test]
fn coordinator_dispatches_until_complete() {
    let mut c = ChunkCoordinator::new("start".into());
    let r1 = c.next_request(Platform::Github, 7, 25);
    assert_eq!(r1.cursor, "start");
    assert_eq!(r1.items_offset, 0);
    assert_eq!(r1.max_batches, 25);
    assert_eq!(c.chunk_num, 1);
    assert_eq!(
        c.absorb(Ok(ChunkResult { items_stored: 40, cursor: "mid".into(), is_complete: false })),
        CoordinatorNext::Dispatch
    );
    let r2 = c.next_request(Platform::Github, 7, 25);
    assert_eq!(r2.cursor, "mid");
    assert_eq!(r2.items_offset, 40);
    assert_eq!(
        c.absorb(Ok(ChunkResult { items_stored: 2, cursor: "end".into(), is_complete: true })),
        CoordinatorNext::Finalise
    );
    assert_eq!(c.total_items, 42);
}

#[test]
fn coordinator_chunk_failure() {
    let mut c = ChunkCoordinator::new("start".into());
    c.next_request(Platform::Jira, 1, 5);
    assert_eq!(
        c.absorb(Err("boom".into())),
        CoordinatorNext::ChunkFailed { message: "chunk 1 failed: boom".into(), with_warnings: false }
    );
    let mut c = ChunkCoordinator::new("start".into());
    c.next_request(Platform::Jira, 1, 5);
    c.absorb(Ok(ChunkResult { items_stored: 3, cursor: "x".into(), is_complete: false }));
    c.next_request(Platform::Jira, 1, 5);
    assert_eq!(
        c.absorb(Err("lost".into())),
        CoordinatorNext::ChunkFailed { message: "chunk 2 failed: lost".into(), with_warnings: true }
    );
}

#[test]
fn run_methods() {
    assert_eq!(ingestion_method(true), "backfill");
    assert_eq!(ingestion_method(false), "run_ingestion");
}
