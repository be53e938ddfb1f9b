//! The fetch-store loop of an ingestion run: what to do with each fetched
//! batch, how a chunk of batches advances, how the coordinator dispatches
//! chunks, and how a run is finalised.
use vstd::prelude::*;

use crate::github::graphql::{join_spec, join_strings};
use crate::ingestion::contribution::ContributionInput;
use crate::model::{
    in_instant_range, json_string_field, now_utc, read_json_string_field, FailedItem, Platform,
    RateLimitInfo, Timestamp, WatermarkField, NANOS_PER_SECOND,
};
use crate::text::{dec, owned, push_str, push_u64};

verus! {

/// A pull request diff skipped because the REST rate limit ran out.
#[derive(Debug, Clone)]
pub struct SkippedDiff {
    /// Index of the pull request among the batch's items.
    pub item_index: usize,
    pub owner: String,
    pub repo: String,
    pub pr_number: u32,
}

/// A fetched batch.
#[derive(Debug, Clone)]
pub struct SerFetchResult {
    pub items: Vec<ContributionInput>,
    pub next_cursor: Option<String>,
    pub rate_limit: Option<RateLimitInfo>,
    /// Rate limit to show in progress (when it differs from `rate_limit`).
    pub display_rate_limit: Option<RateLimitInfo>,
    /// Latest cursor state, for watermark extraction even on the last batch.
    pub etag: Option<String>,
    pub skipped_diffs: Vec<SkippedDiff>,
}

/// What to do with the diffs a batch skipped.
#[derive(Debug, Clone, Copy, PartialEq, Eq, Structural)]
pub enum SkippedDiffAction {
    /// Nothing was skipped.
    NoRetry,
    RetryOnly,
    SleepThenRetry { wait_secs: u64 },
}

/// The decision taken for each fetched batch.
#[derive(Debug, Clone)]
pub enum BatchAction {
    /// Rate limit exhausted and no items: sleep, then fetch the same cursor.
    SleepForRateLimit { wait_secs: u64, etag_cursor: Option<String> },
    /// Store the items and move on.
    Process {
        item_count: usize,
        has_watermark: bool,
        next_cursor: Option<String>,
        etag_cursor: Option<String>,
        skipped_diffs: SkippedDiffAction,
    },
}

pub open spec fn opt_view(o: Option<String>) -> Option<Seq<char>> {
    match o {
        Some(s) => Some(s@),
        None => None,
    }
}

// ---------------------------------------------------------------------------
// Rate limit sleeps
// ---------------------------------------------------------------------------

/// Whole seconds of a span of nanoseconds, truncated toward zero.
pub open spec fn whole_seconds(nanos: int) -> int {
    if nanos >= 0 {
        nanos / (NANOS_PER_SECOND as int)
    } else {
        -((-nanos) / (NANOS_PER_SECOND as int))
    }
}

/// Seconds to sleep until `reset_at`: the whole seconds left (at least one)
/// plus one second of margin.
pub open spec fn sleep_secs_spec(reset_at: int, now: int) -> int {
    let s = whole_seconds(reset_at - now);
    (if s < 1 {
        1
    } else {
        s
    }) + 1
}

pub fn sleep_secs_until(reset_at: Timestamp, now: Timestamp) -> (r: u64)
    requires
        in_instant_range(reset_at as int),
        in_instant_range(now as int),
    ensures
        r as int == sleep_secs_spec(reset_at as int, now as int),
{
    let delta: i128 = reset_at - now;
    let s: i128 = if delta >= 0 {
        delta / NANOS_PER_SECOND
    } else {
        -((-delta) / NANOS_PER_SECOND)
    };
    let s = if s < 1 {
        1
    } else {
        s
    };
    assert(s <= 2_000_000_000_000_000_000) by (nonlinear_arith)
        requires
            s == 1 || (0 <= delta && s == delta / 1_000_000_000),
            delta < 2_000_000_000_000_000_000_000_000_000,
    ;
    (s + 1) as u64
}

/// How long to sleep until a rate limit resets, with a second of margin
/// (at least two seconds), measured from the current time.
pub fn diff_rate_limit_sleep_duration(rate_limit: &RateLimitInfo) -> (r: u64)
    requires
        in_instant_range(rate_limit.reset_at as int),
    ensures
        exists|now: int| in_instant_range(now) && r as int == sleep_secs_spec(rate_limit.reset_at as int, now),
{
    let now = now_utc();
    sleep_secs_until(rate_limit.reset_at, now)
}

// ---------------------------------------------------------------------------
// The decision for a batch
// ---------------------------------------------------------------------------

/// A watermark the cursor carries: the cursor's watermark field, a
/// non-empty string.
pub open spec fn has_watermark_spec(cursor: Seq<char>, field: WatermarkField) -> bool {
    json_string_field(cursor, field.key()) matches Some(w) && w.len() > 0
}

/// The watermark field of a serialised cursor.
pub fn extract_watermark(cursor_json: &str, field: WatermarkField) -> (r: Option<String>)
    ensures
        opt_view(r) == json_string_field(cursor_json@, field.key()),
{
    read_json_string_field(cursor_json, field.as_str())
}

/// A rate limit with nothing left.
pub open spec fn exhausted(rl: Option<RateLimitInfo>) -> bool {
    rl matches Some(r) && r.remaining == 0
}

/// The decision for a fetched batch, at time `now`: an empty batch with more
/// to fetch and an exhausted rate limit sleeps until the reset; otherwise the
/// batch is processed, checking the watermark in the batch's latest cursor
/// (or the current one), and retrying skipped diffs after sleeping out an
/// exhausted limit.
pub open spec fn batch_action_matches(
    r: BatchAction,
    batch: SerFetchResult,
    cursor: Seq<char>,
    field: WatermarkField,
    now: int,
) -> bool {
    if batch.items@.len() == 0 && batch.next_cursor is Some && exhausted(batch.rate_limit) {
        r matches BatchAction::SleepForRateLimit { wait_secs, etag_cursor } && wait_secs as int
            == sleep_secs_spec(batch.rate_limit->0.reset_at as int, now) && opt_view(etag_cursor)
            == opt_view(batch.etag)
    } else {
        let effective = match batch.etag {
            Some(e) => e@,
            None => cursor,
        };
        r matches BatchAction::Process {
            item_count,
            has_watermark,
            next_cursor,
            etag_cursor,
            skipped_diffs,
        } && item_count == batch.items@.len() && has_watermark == has_watermark_spec(effective, field)
            && opt_view(next_cursor) == opt_view(batch.next_cursor) && opt_view(etag_cursor)
            == opt_view(batch.etag) && if batch.skipped_diffs@.len() == 0 {
            skipped_diffs == SkippedDiffAction::NoRetry
        } else if exhausted(batch.rate_limit) {
            skipped_diffs == (SkippedDiffAction::SleepThenRetry {
                wait_secs: sleep_secs_spec(batch.rate_limit->0.reset_at as int, now) as u64,
            })
        } else {
            skipped_diffs == SkippedDiffAction::RetryOnly
        }
    }
}

fn clone_opt(o: &Option<String>) -> (r: Option<String>)
    ensures
        opt_view(r) == opt_view(*o),
{
    match o {
        Some(s) => Some(s.clone()),
        None => None,
    }
}

/// Rate limits in a batch lie within the instants `time` represents.
pub open spec fn batch_instants_ok(batch: SerFetchResult) -> bool {
    batch.rate_limit matches Some(rl) ==> in_instant_range(rl.reset_at as int)
}

/// The decision for a fetched batch at time `now`.
pub fn compute_batch_action_at(batch: &SerFetchResult, cursor: &str, field: WatermarkField, now: Timestamp) -> (r:
    BatchAction)
    requires
        batch_instants_ok(*batch),
        in_instant_range(now as int),
    ensures
        batch_action_matches(r, *batch, cursor@, field, now as int),
{
    let etag_cursor = clone_opt(&batch.etag);
    let rate_exhausted = match &batch.rate_limit {
        Some(rl) => rl.remaining == 0,
        None => false,
    };
    if batch.items.len() == 0 && batch.next_cursor.is_some() && rate_exhausted {
        let rl = batch.rate_limit.unwrap();
        return BatchAction::SleepForRateLimit { wait_secs: sleep_secs_until(rl.reset_at, now), etag_cursor };
    }
    let has_watermark = {
        let wm = match &batch.etag {
            Some(e) => extract_watermark(e.as_str(), field),
            None => extract_watermark(cursor, field),
        };
        match wm {
            Some(w) => !w.as_str().is_empty(),
            None => false,
        }
    };
    let skipped_diffs = if batch.skipped_diffs.len() == 0 {
        SkippedDiffAction::NoRetry
    } else if rate_exhausted {
        let rl = batch.rate_limit.unwrap();
        SkippedDiffAction::SleepThenRetry { wait_secs: sleep_secs_until(rl.reset_at, now) }
    } else {
        SkippedDiffAction::RetryOnly
    };
    BatchAction::Process {
        item_count: batch.items.len(),
        has_watermark,
        next_cursor: clone_opt(&batch.next_cursor),
        etag_cursor,
        skipped_diffs,
    }
}

/// The decision for a fetched batch, measured from the current time.
pub fn compute_batch_action(batch: &SerFetchResult, cursor: &str, field: WatermarkField) -> (r: BatchAction)
    requires
        batch_instants_ok(*batch),
    ensures
        exists|now: int| in_instant_range(now) && batch_action_matches(r, *batch, cursor@, field, now),
{
    let now = now_utc();
    compute_batch_action_at(batch, cursor, field, now)
}

// ---------------------------------------------------------------------------
// A chunk of batches
// ---------------------------------------------------------------------------

/// State of the batch-limited fetch-store loop of one chunk.
pub struct FetchStoreLoop {
    /// Cursor of the next fetch.
    pub cursor: String,
    /// Items stored by this chunk.
    pub total_items: i32,
    /// Batches stored by this chunk.
    pub batches: u32,
    pub max_batches: usize,
    /// Items stored by earlier chunks.
    pub items_offset: i32,
}

/// The next thing the loop does with a batch.
#[derive(Debug, Clone, Copy, PartialEq, Eq, Structural)]
pub enum BatchStep {
    /// Sleep this many seconds, then fetch the same cursor again.
    Sleep { wait_secs: u64 },
    /// Store the batch's items.
    Store,
    /// Nothing to store: go on to the skipped diffs and the next cursor.
    SkipStore,
}

/// How the loop goes on after a batch.
#[derive(Debug, Clone, Copy, PartialEq, Eq, Structural)]
pub enum ChunkProgress {
    /// Fetch the next batch.
    Continue,
    /// End of data: the chunk, and the run, are complete.
    Complete,
    /// This chunk's batch limit is reached; another chunk goes on.
    LimitReached,
}

impl FetchStoreLoop {
    /// A chunk starting at `cursor`.
    pub fn new(cursor: String, max_batches: usize, items_offset: i32) -> (r: FetchStoreLoop)
        ensures
            r.cursor@ == cursor@,
            r.total_items == 0,
            r.batches == 0,
            r.max_batches == max_batches,
            r.items_offset == items_offset,
    {
        FetchStoreLoop { cursor, total_items: 0, batches: 0, max_batches, items_offset }
    }

    /// Takes the decision for a fetched batch: the batch's latest cursor (if
    /// any) becomes the loop's cursor, then the loop sleeps, stores the
    /// items, or has nothing to store.
    pub fn begin_batch(&mut self, action: &BatchAction) -> (r: BatchStep)
        ensures
            final(self).total_items == old(self).total_items,
            final(self).batches == old(self).batches,
            final(self).max_batches == old(self).max_batches,
            final(self).items_offset == old(self).items_offset,
            match *action {
                BatchAction::SleepForRateLimit { wait_secs, etag_cursor } => r == (BatchStep::Sleep {
                    wait_secs,
                }) && final(self).cursor@ == match etag_cursor {
                    Some(e) => e@,
                    None => old(self).cursor@,
                },
                BatchAction::Process { item_count, etag_cursor, .. } => (if item_count > 0 {
                    r == BatchStep::Store
                } else {
                    r == BatchStep::SkipStore
                }) && final(self).cursor@ == match etag_cursor {
                    Some(e) => e@,
                    None => old(self).cursor@,
                },
            },
    {
        match action {
            BatchAction::SleepForRateLimit { wait_secs, etag_cursor } => {
                if let Some(e) = etag_cursor {
                    self.cursor = e.clone();
                }
                BatchStep::Sleep { wait_secs: *wait_secs }
            },
            BatchAction::Process { item_count, etag_cursor, .. } => {
                if let Some(e) = etag_cursor {
                    self.cursor = e.clone();
                }
                if *item_count > 0 {
                    BatchStep::Store
                } else {
                    BatchStep::SkipStore
                }
            },
        }
    }

    /// Counts a stored batch. When the cursor carries a watermark, returns
    /// the global item count to advance the watermark with.
    pub fn record_stored(&mut self, stored: i32, has_watermark: bool) -> (r: Option<i32>)
        requires
            old(self).total_items + stored <= i32::MAX,
            old(self).total_items + stored >= i32::MIN,
            old(self).items_offset + old(self).total_items + stored <= i32::MAX,
            old(self).items_offset + old(self).total_items + stored >= i32::MIN,
            old(self).batches < u32::MAX,
        ensures
            final(self).total_items == old(self).total_items + stored,
            final(self).batches == old(self).batches + 1,
            final(self).cursor@ == old(self).cursor@,
            final(self).max_batches == old(self).max_batches,
            final(self).items_offset == old(self).items_offset,
            r == if has_watermark {
                Some((old(self).items_offset + old(self).total_items + stored) as i32)
            } else {
                None::<i32>
            },
    {
        self.total_items = self.total_items + stored;
        self.batches = self.batches + 1;
        if has_watermark {
            Some(self.items_offset + self.total_items)
        } else {
            None
        }
    }

    /// Global item count, for progress.
    pub fn global_items(&self) -> (r: i32)
        requires
            i32::MIN <= self.items_offset + self.total_items <= i32::MAX,
        ensures
            r == self.items_offset + self.total_items,
    {
        self.items_offset + self.total_items
    }

    /// Ends a processed batch: no next cursor means the data is exhausted;
    /// otherwise the loop moves to the next cursor and stops once the batch
    /// limit is reached.
    pub fn end_batch(&mut self, next_cursor: Option<String>) -> (r: ChunkProgress)
        ensures
            final(self).total_items == old(self).total_items,
            final(self).batches == old(self).batches,
            final(self).max_batches == old(self).max_batches,
            final(self).items_offset == old(self).items_offset,
            match next_cursor {
                None => r == ChunkProgress::Complete && final(self).cursor@ == old(self).cursor@,
                Some(nc) => final(self).cursor@ == nc@ && r == if old(self).batches as int
                    >= old(self).max_batches as int {
                    ChunkProgress::LimitReached
                } else {
                    ChunkProgress::Continue
                },
            },
    {
        match next_cursor {
            None => ChunkProgress::Complete,
            Some(nc) => {
                self.cursor = nc;
                if self.batches as u64 >= self.max_batches as u64 {
                    ChunkProgress::LimitReached
                } else {
                    ChunkProgress::Continue
                }
            },
        }
    }
}

// ---------------------------------------------------------------------------
// The coordinator
// ---------------------------------------------------------------------------

/// The method recorded for a run: `backfill` when a watermark override is
/// given, `run_ingestion` otherwise.
pub fn ingestion_method(backfill: bool) -> (r: &'static str)
    ensures
        r@ == if backfill {
            "backfill"@
        } else {
            "run_ingestion"@
        },
{
    if backfill {
        "backfill"
    } else {
        "run_ingestion"
    }
}

/// A request for the chunk service.
#[derive(Debug, Clone)]
pub struct ChunkRequest {
    pub source_type: Platform,
    pub cursor: String,
    pub run_id: u128,
    pub max_batches: usize,
    pub items_offset: i32,
}

/// What a chunk reports.
#[derive(Debug, Clone)]
pub struct ChunkResult {
    pub items_stored: i32,
    pub cursor: String,
    pub is_complete: bool,
}

/// State of a coordinator dispatching chunks one after another.
pub struct ChunkCoordinator {
    pub cursor: String,
    pub total_items: i32,
    /// Number of the last chunk dispatched.
    pub chunk_num: u32,
}

/// What the coordinator does after a chunk.
#[derive(Debug, Clone, PartialEq, Eq)]
pub enum CoordinatorNext {
    /// Dispatch another chunk.
    Dispatch,
    /// All data was fetched: finalise the run.
    Finalise,
    /// A chunk failed: the run ends with this error, completed with
    /// warnings when items were stored, failed otherwise.
    ChunkFailed { message: String, with_warnings: bool },
}

/// `chunk {n} failed: {error}`.
pub open spec fn chunk_failure_message(n: nat, error: Seq<char>) -> Seq<char> {
    "chunk "@ + dec(n) + " failed: "@ + error
}

impl ChunkCoordinator {
    /// A coordinator starting at the plan's initial cursor.
    pub fn new(initial_cursor: String) -> (r: ChunkCoordinator)
        ensures
            r.cursor@ == initial_cursor@,
            r.total_items == 0,
            r.chunk_num == 0,
    {
        ChunkCoordinator { cursor: initial_cursor, total_items: 0, chunk_num: 0 }
    }

    /// The next chunk to dispatch: from the current cursor, at most
    /// `chunk_size` batches, offset by the items stored so far.
    pub fn next_request(&mut self, source_type: Platform, run_id: u128, chunk_size: usize) -> (r: ChunkRequest)
        requires
            old(self).chunk_num < u32::MAX,
        ensures
            final(self).chunk_num == old(self).chunk_num + 1,
            final(self).cursor@ == old(self).cursor@,
            final(self).total_items == old(self).total_items,
            r.cursor@ == old(self).cursor@,
            r.source_type == source_type,
            r.run_id == run_id,
            r.max_batches == chunk_size,
            r.items_offset == old(self).total_items,
    {
        self.chunk_num = self.chunk_num + 1;
        ChunkRequest {
            source_type,
            cursor: self.cursor.clone(),
            run_id,
            max_batches: chunk_size,
            items_offset: self.total_items,
        }
    }

    /// Takes a chunk's outcome: its items are added and its cursor adopted;
    /// a complete chunk ends the dispatching; a failed one ends the run with
    /// `chunk {n} failed: {error}`.
    pub fn absorb(&mut self, outcome: Result<ChunkResult, String>) -> (r: CoordinatorNext)
        requires
            outcome matches Ok(c) ==> i32::MIN <= old(self).total_items + c.items_stored <= i32::MAX,
        ensures
            final(self).chunk_num == old(self).chunk_num,
            match outcome {
                Ok(c) => final(self).total_items == old(self).total_items + c.items_stored
                    && final(self).cursor@ == c.cursor@ && r == if c.is_complete {
                    CoordinatorNext::Finalise
                } else {
                    CoordinatorNext::Dispatch
                },
                Err(e) => {
                    &&& final(self).total_items == old(self).total_items
                    &&& final(self).cursor@ == old(self).cursor@
                    &&& r matches CoordinatorNext::ChunkFailed { message, with_warnings }
                    &&& message@ == chunk_failure_message(old(self).chunk_num as nat, e@)
                    &&& with_warnings == (old(self).total_items > 0)
                },
            },
    {
        match outcome {
            Ok(c) => {
                self.total_items = self.total_items + c.items_stored;
                self.cursor = c.cursor;
                if c.is_complete {
                    CoordinatorNext::Finalise
                } else {
                    CoordinatorNext::Dispatch
                }
            },
            Err(e) => {
                let mut message = owned("chunk ");
                push_u64(&mut message, self.chunk_num as u64);
                push_str(&mut message, " failed: ");
                push_str(&mut message, e.as_str());
                CoordinatorNext::ChunkFailed { message, with_warnings: self.total_items > 0 }
            },
        }
    }
}

/// Message of the terminal error raised when planning fails.
pub fn plan_failure_message(error: &str) -> (r: String)
    ensures
        r@ == "plan failed: "@ + error@,
{
    let mut m = owned("plan failed: ");
    push_str(&mut m, error);
    m
}

// ---------------------------------------------------------------------------
// Finalising a run
// ---------------------------------------------------------------------------

/// How a run ends.
#[derive(Debug, Clone, PartialEq, Eq)]
pub enum RunEnding {
    /// No failures: complete, advancing the watermark first when items were
    /// stored.
    Complete { advance_watermark: bool },
    /// Every item failed and nothing was stored.
    Fail { summary: String },
    /// Some items failed: complete with warnings, leaving the watermark.
    CompleteWithWarnings { summary: String },
}

pub open spec fn string_views(v: Seq<String>) -> Seq<Seq<char>> {
    v.map_values(|s: String| s@)
}

pub open spec fn failed_keys(failed: Seq<FailedItem>) -> Seq<Seq<char>> {
    failed.map_values(|f: FailedItem| f.key@)
}

/// `{n} {noun}(s) failed: k1, k2, ...`.
pub open spec fn failure_summary(failed: Seq<FailedItem>, noun: Seq<char>) -> Seq<char> {
    dec(failed.len()) + " "@ + noun + "(s) failed: "@ + join_spec(failed_keys(failed), ", "@)
}

/// Decides how a run ends from the items stored and the items that failed.
pub fn finalise_decision(total_items: i32, failed_items: &Vec<FailedItem>, item_noun: &str) -> (r: RunEnding)
    ensures
        failed_items@.len() == 0 ==> r == (RunEnding::Complete { advance_watermark: total_items > 0 }),
        failed_items@.len() > 0 && total_items == 0 ==> (r matches RunEnding::Fail { summary } && summary@
            == "all "@ + failure_summary(failed_items@, item_noun@)),
        failed_items@.len() > 0 && total_items != 0 ==> (r matches RunEnding::CompleteWithWarnings {
            summary,
        } && summary@ == failure_summary(failed_items@, item_noun@)),
{
    if failed_items.len() == 0 {
        return RunEnding::Complete { advance_watermark: total_items > 0 };
    }
    let mut keys: Vec<String> = Vec::new();
    let mut i: usize = 0;
    while i < failed_items.len()
        invariant
            i <= failed_items@.len(),
            keys@.len() == i,
            string_views(keys@) == failed_keys(failed_items@.take(i as int)),
        decreases failed_items.len() - i,
    {
        let ghost before = keys@;
        let k = failed_items[i].key.clone();
        keys.push(k);
        proof {
            assert(keys@ == before.push(k));
            assert forall|j: int| 0 <= j < i + 1 implies #[trigger] string_views(keys@)[j]
                == failed_keys(failed_items@.take(i + 1))[j] by {
                if j < i {
                    assert(string_views(before)[j] == failed_keys(failed_items@.take(i as int))[j]);
                }
            }
            assert(string_views(keys@) =~= failed_keys(failed_items@.take(i + 1)));
        }
        i = i + 1;
    }
    proof {
        assert(failed_items@.take(failed_items@.len() as int) =~= failed_items@);
    }
    let mut summary = if total_items == 0 {
        owned("all ")
    } else {
        String::new()
    };
    push_u64(&mut summary, failed_items.len() as u64);
    push_str(&mut summary, " ");
    push_str(&mut summary, item_noun);
    push_str(&mut summary, "(s) failed: ");
    let joined = join_strings(&keys, ", ");
    push_str(&mut summary, joined.as_str());
    if total_items == 0 {
        proof {
            assert(summary@ =~= "all "@ + failure_summary(failed_items@, item_noun@));
        }
        RunEnding::Fail { summary }
    } else {
        proof {
            reveal_strlit("");
            assert(summary@ =~= failure_summary(failed_items@, item_noun@));
        }
        RunEnding::CompleteWithWarnings { summary }
    }
}

} // verus!
