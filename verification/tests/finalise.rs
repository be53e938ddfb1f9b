use ps_workers::ingestion::batch::{
    compute_batch_action_at, extract_watermark, finalise_decision, plan_failure_message,
    sleep_secs_until, BatchAction, RunEnding, SerFetchResult, SkippedDiff, SkippedDiffAction,
};
use ps_workers::model::{FailedItem, RateLimitInfo, WatermarkField};

const SEC: i128 = 1_000_000_000;

#[test]
fn finalise_extract_watermark_max_updated_at() {
    let cursor = r#"{"max_updated_at": "2025-01-15T12:00:00Z", "repo_index": 0}"#;
    assert_eq!(
        extract_watermark(cursor, WatermarkField::MaxUpdatedAt),
        Some("2025-01-15T12:00:00Z".into())
    );
}

#[test]
fn finalise_extract_watermark_max_bumped_at() {
    let cursor = r#"{"max_bumped_at": "2025-02-01T00:00:00Z"}"#;
    assert_eq!(
        extract_watermark(cursor, WatermarkField::MaxBumpedAt),
        Some("2025-02-01T00:00:00Z".into())
    );
}

#[test]
fn finalise_extract_watermark_missing_field() {
    let cursor = r#"{"repo_index": 0}"#;
    assert_eq!(extract_watermark(cursor, WatermarkField::MaxUpdatedAt), None);
}

#[test]
fn finalise_extract_watermark_null_value() {
    let cursor = r#"{"max_updated_at": null}"#;
    assert_eq!(extract_watermark(cursor, WatermarkField::MaxUpdatedAt), None);
}

#[test]
fn finalise_extract_watermark_invalid_json() {
    assert_eq!(extract_watermark("not json", WatermarkField::MaxUpdatedAt), None);
}

#[test]
fn ingestion_common_extract_watermark_max_updated_at() {
    let cursor = r#"{"max_updated_at": "2025-01-15T12:00:00Z", "repo_index": 0}"#;
    assert_eq!(
        extract_watermark(cursor, WatermarkField::MaxUpdatedAt),
        Some("2025-01-15T12:00:00Z".into())
    );
}

#[test]
fn ingestion_common_extract_watermark_max_bumped_at() {
    let cursor = r#"{"max_bumped_at": "2025-02-01T00:00:00Z"}"#;
    assert_eq!(
        extract_watermark(cursor, WatermarkField::MaxBumpedAt),
        Some("2025-02-01T00:00:00Z".into())
    );
}

#[test]
fn ingestion_common_extract_watermark_missing_field() {
    let cursor = r#"{"repo_index": 0}"#;
    assert_eq!(extract_watermark(cursor, WatermarkField::MaxUpdatedAt), None);
}

#[test]
fn ingestion_common_extract_watermark_null_value() {
    let cursor = r#"{"max_updated_at": null}"#;
    assert_eq!(extract_watermark(cursor, WatermarkField::MaxUpdatedAt), None);
}

#[test]
fn ingestion_common_extract_watermark_invalid_json() {
    assert_eq!(extract_watermark("not json", WatermarkField::MaxUpdatedAt), None);
}

fn failed(key: &str) -> FailedItem {
    FailedItem { key: key.into(), error: "boom".into() }
}

#[test]
fn finalise_without_failures_completes() {
    assert_eq!(finalise_decision(5, &vec![], "repo"), RunEnding::Complete { advance_watermark: true });
    assert_eq!(finalise_decision(0, &vec![], "repo"), RunEnding::Complete { advance_watermark: false });
}

#[test]
fn finalise_all_failed_fails_the_run() {
    let items = vec![failed("a/b"), failed("c/d")];
    assert_eq!(
        finalise_decision(0, &items, "repo"),
        RunEnding::Fail { summary: "all 2 repo(s) failed: a/b, c/d".into() }
    );
}

#[test]
fn finalise_partial_failure_warns_without_watermark() {
    let items = vec![failed("PROJ")];
    assert_eq!(
        finalise_decision(7, &items, "project"),
        RunEnding::CompleteWithWarnings { summary: "1 project(s) failed: PROJ".into() }
    );
}

#[test]
fn sleep_until_reset_has_a_margin() {
    assert_eq!(sleep_secs_until(100 * SEC, 40 * SEC), 61);
    // A reset in the past still waits two seconds.
    assert_eq!(sleep_secs_until(10 * SEC, 40 * SEC), 2);
    // Partial seconds are truncated.
    assert_eq!(sleep_secs_until(10 * SEC + SEC / 2, 0), 11);
}

fn batch(items: usize, next: Option<&str>, remaining: Option<i32>, etag: Option<&str>, skipped: usize) -> SerFetchResult {
    let _ = items;
    SerFetchResult {
        items: vec![],
        next_cursor: next.map(String::from),
        rate_limit: remaining.map(|r| RateLimitInfo { remaining: r, limit: 5000, reset_at: 100 * SEC }),
        display_rate_limit: None,
        etag: etag.map(String::from),
        skipped_diffs: (0..skipped)
            .map(|i| SkippedDiff { item_index: i, owner: "o".into(), repo: "r".into(), pr_number: 1 })
            .collect(),
    }
}

#[test]
fn exhausted_empty_batch_sleeps() {
    let b = batch(0, Some("next"), Some(0), Some("{}"), 0);
    match compute_batch_action_at(&b, "{}", WatermarkField::MaxUpdatedAt, 40 * SEC) {
        BatchAction::SleepForRateLimit { wait_secs, etag_cursor } => {
            assert_eq!(wait_secs, 61);
            assert_eq!(etag_cursor.as_deref(), Some("{}"));
        }
        _ => panic!("expected a sleep"),
    }
}

#[test]
fn processed_batch_reads_watermark_of_latest_cursor() {
    let b = batch(0, None, Some(10), Some(r#"{"max_bumped_at": "2025-01-01T00:00:00Z"}"#), 0);
    match compute_batch_action_at(&b, "{}", WatermarkField::MaxBumpedAt, 0) {
        BatchAction::Process { item_count, has_watermark, next_cursor, skipped_diffs, .. } => {
            assert_eq!(item_count, 0);
            assert!(has_watermark);
            assert_eq!(next_cursor, None);
            assert_eq!(skipped_diffs, SkippedDiffAction::NoRetry);
        }
        _ => panic!("expected processing"),
    }
}

#[test]
fn skipped_diffs_retry_after_reset() {
    let b = batch(0, Some("n"), Some(0), None, 2);
    // Items are empty and the limit is exhausted, so the batch sleeps first.
    assert!(matches!(
        compute_batch_action_at(&b, r#"{"max_updated_at": ""}"#, WatermarkField::MaxUpdatedAt, 40 * SEC),
        BatchAction::SleepForRateLimit { .. }
    ));
    let b = batch(0, None, Some(0), None, 2);
    match compute_batch_action_at(&b, r#"{"max_updated_at": ""}"#, WatermarkField::MaxUpdatedAt, 40 * SEC) {
        BatchAction::Process { has_watermark, skipped_diffs, .. } => {
            // An empty watermark does not count.
            assert!(!has_watermark);
            assert_eq!(skipped_diffs, SkippedDiffAction::SleepThenRetry { wait_secs: 61 });
        }
        _ => panic!("expected processing"),
    }
    let b = batch(0, None, Some(3), None, 1);
    match compute_batch_action_at(&b, "{}", WatermarkField::MaxUpdatedAt, 0) {
        BatchAction::Process { skipped_diffs, .. } => assert_eq!(skipped_diffs, SkippedDiffAction::RetryOnly),
        _ => panic!("expected processing"),
    }
}

#[test]
fn plan_failure_is_prefixed() {
    assert_eq!(plan_failure_message("db down"), "plan failed: db down");
}
