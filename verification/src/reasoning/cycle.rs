//! Bookkeeping of the enrichment and embedding cycles: what each processed
//! batch adds to the run's totals, when a cycle stops or hands over to a
//! continuation, and how its run record is closed.
use vstd::prelude::*;

use crate::github::graphql::{join_spec, join_strings};
use crate::text::{dec, owned, push_str, push_u64};

verus! {

broadcast use vstd::std_specs::hash::group_hash_axioms;

/// `n as i32` for a count: the low 32 bits, read as a signed number.
pub open spec fn wrap_i32(n: nat) -> int {
    let m = n % 0x1_0000_0000;
    if m >= 0x8000_0000 {
        m - 0x1_0000_0000
    } else {
        m as int
    }
}

fn to_i32_wrapping(n: u64) -> (r: i32)
    ensures
        r as int == wrap_i32(n as nat),
{
    let m: u64 = n % 0x1_0000_0000;
    if m >= 0x8000_0000 {
        (m as i64 - 0x1_0000_0000) as i32
    } else {
        m as i32
    }
}

// ---------------------------------------------------------------------------
// Embedding
// ---------------------------------------------------------------------------

/// Contributions fetched from the embedding queue per batch.
pub const EMBEDDING_BATCH_SIZE: usize = 100;

/// Batches an embedding invocation processes before handing over to a
/// continuation.
pub const EMBEDDING_MAX_ITERATIONS: u32 = 20;

/// What embedding a batch produced.
#[derive(Debug, Clone, Copy, PartialEq, Eq, Structural)]
pub struct EmbeddingBatchResult {
    pub embedded: u64,
    pub skipped: u64,
    pub errors: u64,
}

/// How a cycle goes on after a batch.
#[derive(Debug, Clone, Copy, PartialEq, Eq, Structural)]
pub enum CycleNext {
    /// Fetch the next batch.
    Continue,
    /// The queue is drained: finalise the run.
    Drained,
    /// The invocation's batch cap is reached: hand over to a continuation.
    HandOver,
}

/// How a cycle's run record is closed.
#[derive(Debug, Clone, PartialEq, Eq)]
pub enum CycleEnd {
    Complete { items: i32 },
    Fail { message: String },
}

/// Totals of an embedding cycle.
#[derive(Debug, Clone, Copy, PartialEq, Eq, Structural)]
pub struct EmbeddingCycle {
    pub total_embedded: u64,
    pub total_skipped: u64,
    pub total_errors: u64,
    pub iteration: u32,
}

impl EmbeddingCycle {
    /// A cycle; a continuation starts from the items its run already
    /// recorded (a negative or missing count counts as zero).
    pub fn new(carried_items: Option<i32>) -> (r: EmbeddingCycle)
        ensures
            r.total_embedded == match carried_items {
                Some(n) => if n > 0 {
                    n as int
                } else {
                    0
                },
                None => 0,
            },
            r.total_skipped == 0,
            r.total_errors == 0,
            r.iteration == 0,
    {
        let start: u64 = match carried_items {
            Some(n) => if n > 0 {
                n as u64
            } else {
                0
            },
            None => 0,
        };
        EmbeddingCycle { total_embedded: start, total_skipped: 0, total_errors: 0, iteration: 0 }
    }

    /// Takes a processed batch of `batch_size` queued items: the totals grow;
    /// a partial batch means the queue is drained; after the invocation's
    /// batch cap the cycle hands over.
    pub fn absorb(&mut self, batch_size: usize, result: EmbeddingBatchResult) -> (r: CycleNext)
        requires
            old(self).total_embedded + result.embedded <= u64::MAX,
            old(self).total_skipped + result.skipped <= u64::MAX,
            old(self).total_errors + result.errors <= u64::MAX,
            old(self).iteration < u32::MAX,
        ensures
            final(self).total_embedded == old(self).total_embedded + result.embedded,
            final(self).total_skipped == old(self).total_skipped + result.skipped,
            final(self).total_errors == old(self).total_errors + result.errors,
            final(self).iteration == old(self).iteration + 1,
            r == if batch_size < EMBEDDING_BATCH_SIZE {
                CycleNext::Drained
            } else if final(self).iteration >= EMBEDDING_MAX_ITERATIONS {
                CycleNext::HandOver
            } else {
                CycleNext::Continue
            },
    {
        self.total_embedded = self.total_embedded + result.embedded;
        self.total_skipped = self.total_skipped + result.skipped;
        self.total_errors = self.total_errors + result.errors;
        self.iteration = self.iteration + 1;
        if batch_size < EMBEDDING_BATCH_SIZE {
            CycleNext::Drained
        } else if self.iteration >= EMBEDDING_MAX_ITERATIONS {
            CycleNext::HandOver
        } else {
            CycleNext::Continue
        }
    }

    /// Items reported as progress (`total_embedded as i32`).
    pub fn items_so_far(&self) -> (r: i32)
        ensures
            r as int == wrap_i32(self.total_embedded as nat),
    {
        to_i32_wrapping(self.total_embedded)
    }

    /// `Embedded {e}, skipped {s}, errors {x}`.
    pub fn status_message(&self) -> (r: String)
        ensures
            r@ == "Embedded "@ + dec(self.total_embedded as nat) + ", skipped "@ + dec(
                self.total_skipped as nat,
            ) + ", errors "@ + dec(self.total_errors as nat),
    {
        let mut m = owned("Embedded ");
        push_u64(&mut m, self.total_embedded);
        push_str(&mut m, ", skipped ");
        push_u64(&mut m, self.total_skipped);
        push_str(&mut m, ", errors ");
        push_u64(&mut m, self.total_errors);
        m
    }

    /// Closes the run of a drained cycle: failed (`all {n} items failed`)
    /// when there were errors and nothing was embedded, completed with the
    /// items embedded otherwise.
    pub fn finish(&self) -> (r: CycleEnd)
        ensures
            self.total_errors > 0 && self.total_embedded == 0 ==> (r matches CycleEnd::Fail { message }
                && message@ == "all "@ + dec(self.total_errors as nat) + " items failed"@),
            !(self.total_errors > 0 && self.total_embedded == 0) ==> r == (CycleEnd::Complete {
                items: wrap_i32(self.total_embedded as nat) as i32,
            }),
    {
        if self.total_errors > 0 && self.total_embedded == 0 {
            let mut m = owned("all ");
            push_u64(&mut m, self.total_errors);
            push_str(&mut m, " items failed");
            CycleEnd::Fail { message: m }
        } else {
            CycleEnd::Complete { items: to_i32_wrapping(self.total_embedded) }
        }
    }
}

// ---------------------------------------------------------------------------
// Enrichment
// ---------------------------------------------------------------------------

/// Batches an enrichment invocation processes before handing over.
pub const ENRICHMENT_MAX_ITERATIONS: u32 = 10;

/// Kinds of enrichment.
#[derive(Debug, Clone, Copy, PartialEq, Eq, Structural)]
pub enum EnrichmentType {
    ReviewDepth,
    Sentiment,
    Significance,
    Topic,
}

impl EnrichmentType {
    pub open spec fn name(self) -> Seq<char> {
        match self {
            EnrichmentType::ReviewDepth => "review_depth"@,
            EnrichmentType::Sentiment => "sentiment"@,
            EnrichmentType::Significance => "significance"@,
            EnrichmentType::Topic => "topic"@,
        }
    }

    pub fn as_str(self) -> (r: &'static str)
        ensures
            r@ == self.name(),
    {
        match self {
            EnrichmentType::ReviewDepth => "review_depth",
            EnrichmentType::Sentiment => "sentiment",
            EnrichmentType::Significance => "significance",
            EnrichmentType::Topic => "topic",
        }
    }
}

/// What processing one enrichment type's batch produced.
#[derive(Debug, Clone)]
pub struct EnrichmentBatchResult {
    pub enrichment_type: EnrichmentType,
    /// Enrichment rows written.
    pub processed: u64,
    pub errors: u64,
    pub first_error: Option<String>,
    /// Contributions fully processed.
    pub successful_contribution_ids: Vec<u128>,
}

/// Rows and errors of one enrichment type.
#[derive(Debug, Clone, Copy, PartialEq, Eq, Structural)]
pub struct TypeProgress {
    pub processed: u64,
    pub errors: u64,
}

/// Totals of an enrichment cycle.
#[derive(Debug, Clone)]
pub struct EnrichmentCycle {
    /// Distinct contributions processed (what the run reports).
    pub total_processed: i32,
    pub total_errors: u64,
    /// The first error any batch reported.
    pub first_error: Option<String>,
    pub review_depth: TypeProgress,
    pub sentiment: TypeProgress,
    pub significance: TypeProgress,
    pub topic: TypeProgress,
    pub iteration: u32,
}

pub open spec fn stats_of(c: EnrichmentCycle, t: EnrichmentType) -> TypeProgress {
    match t {
        EnrichmentType::ReviewDepth => c.review_depth,
        EnrichmentType::Sentiment => c.sentiment,
        EnrichmentType::Significance => c.significance,
        EnrichmentType::Topic => c.topic,
    }
}

pub open spec fn opt_view(o: Option<String>) -> Option<Seq<char>> {
    match o {
        Some(s) => Some(s@),
        None => None,
    }
}

/// All successful contribution ids of an iteration's batches, in order.
pub open spec fn all_ids(batches: Seq<EnrichmentBatchResult>) -> Seq<u128>
    decreases batches.len(),
{
    if batches.len() == 0 {
        seq![]
    } else {
        all_ids(batches.drop_last()) + batches.last().successful_contribution_ids@
    }
}

/// Number of distinct contributions in a sequence of ids.
pub open spec fn distinct_count(ids: Seq<u128>) -> nat {
    ids.to_set().len()
}

proof fn lemma_push_ids_to_set(s: Seq<u128>, x: u128)
    ensures
        s.push(x).to_set() == s.to_set().insert(x),
{
    assert forall|y: u128| s.push(x).to_set().contains(y) <==> s.to_set().insert(x).contains(y) by {
        if s.push(x).to_set().contains(y) && y != x {
            let k = choose|k: int| 0 <= k < s.len() + 1 && s.push(x)[k] == y;
            assert(s[k] == y);
        }
        if s.to_set().contains(y) {
            let k = choose|k: int| 0 <= k < s.len() && s[k] == y;
            assert(s.push(x)[k] == y);
        }
        if y == x {
            assert(s.push(x)[s.len() as int] == x);
        }
    }
    assert(s.push(x).to_set() =~= s.to_set().insert(x));
}

/// The distinct contributions an iteration's batches processed.
pub fn distinct_contribution_ids(batches: &Vec<EnrichmentBatchResult>) -> (r: std::collections::HashSet<u128>)
    ensures
        r@ == all_ids(batches@).to_set(),
{
    let mut out: std::collections::HashSet<u128> = std::collections::HashSet::new();
    let mut b: usize = 0;
    proof {
        assert(out@ =~= all_ids(batches@.take(0)).to_set());
    }
    while b < batches.len()
        invariant
            b <= batches@.len(),
            out@ == all_ids(batches@.take(b as int)).to_set(),
        decreases batches.len() - b,
    {
        let ids = &batches[b].successful_contribution_ids;
        let ghost base = all_ids(batches@.take(b as int));
        proof {
            assert(batches@.take(b + 1).drop_last() =~= batches@.take(b as int));
        }
        let mut j: usize = 0;
        proof {
            assert(base + ids@.take(0) =~= base);
        }
        while j < ids.len()
            invariant
                b < batches@.len(),
                ids == &batches@[b as int].successful_contribution_ids,
                j <= ids@.len(),
                base == all_ids(batches@.take(b as int)),
                out@ == (base + ids@.take(j as int)).to_set(),
            decreases ids.len() - j,
        {
            out.insert(ids[j]);
            proof {
                assert(base + ids@.take(j + 1) =~= (base + ids@.take(j as int)).push(ids@[j as int]));
                lemma_push_ids_to_set(base + ids@.take(j as int), ids@[j as int]);
            }
            j = j + 1;
        }
        proof {
            assert(ids@.take(ids@.len() as int) =~= ids@);
        }
        b = b + 1;
    }
    proof {
        assert(batches@.take(batches@.len() as int) =~= batches@);
    }
    out
}

impl EnrichmentCycle {
    /// A cycle; a continuation starts from the items its run already
    /// recorded.
    pub fn new(carried_items: Option<i32>) -> (r: EnrichmentCycle)
        ensures
            r.total_processed == match carried_items {
                Some(n) => n,
                None => 0,
            },
            r.total_errors == 0,
            r.first_error is None,
            r.iteration == 0,
            r.review_depth == (TypeProgress { processed: 0, errors: 0 }),
            r.sentiment == (TypeProgress { processed: 0, errors: 0 }),
            r.significance == (TypeProgress { processed: 0, errors: 0 }),
            r.topic == (TypeProgress { processed: 0, errors: 0 }),
    {
        let zero = TypeProgress { processed: 0, errors: 0 };
        EnrichmentCycle {
            total_processed: match carried_items {
                Some(n) => n,
                None => 0,
            },
            total_errors: 0,
            first_error: None,
            review_depth: zero,
            sentiment: zero,
            significance: zero,
            topic: zero,
            iteration: 0,
        }
    }

    /// Per-type counts of one batch; the first error reported is kept.
    pub fn aggregate_batch(&mut self, batch: &EnrichmentBatchResult)
        requires
            old(self).total_errors + batch.errors <= u64::MAX,
            stats_of(*old(self), batch.enrichment_type).processed + batch.processed <= u64::MAX,
            stats_of(*old(self), batch.enrichment_type).errors + batch.errors <= u64::MAX,
        ensures
            final(self).total_errors == old(self).total_errors + batch.errors,
            opt_view(final(self).first_error) == match old(self).first_error {
                Some(e) => Some(e@),
                None => opt_view(batch.first_error),
            },
            stats_of(*final(self), batch.enrichment_type) == (TypeProgress {
                processed: (stats_of(*old(self), batch.enrichment_type).processed + batch.processed) as u64,
                errors: (stats_of(*old(self), batch.enrichment_type).errors + batch.errors) as u64,
            }),
            forall|t: EnrichmentType| t != batch.enrichment_type ==> stats_of(*final(self), t) == stats_of(
                *old(self),
                t,
            ),
            final(self).total_processed == old(self).total_processed,
            final(self).iteration == old(self).iteration,
    {
        if self.first_error.is_none() {
            self.first_error = match &batch.first_error {
                Some(e) => Some(e.clone()),
                None => None,
            };
        }
        self.total_errors = self.total_errors + batch.errors;
        match batch.enrichment_type {
            EnrichmentType::ReviewDepth => {
                self.review_depth = TypeProgress {
                    processed: self.review_depth.processed + batch.processed,
                    errors: self.review_depth.errors + batch.errors,
                };
            },
            EnrichmentType::Sentiment => {
                self.sentiment = TypeProgress {
                    processed: self.sentiment.processed + batch.processed,
                    errors: self.sentiment.errors + batch.errors,
                };
            },
            EnrichmentType::Significance => {
                self.significance = TypeProgress {
                    processed: self.significance.processed + batch.processed,
                    errors: self.significance.errors + batch.errors,
                };
            },
            EnrichmentType::Topic => {
                self.topic = TypeProgress {
                    processed: self.topic.processed + batch.processed,
                    errors: self.topic.errors + batch.errors,
                };
            },
        }
    }

    /// Counts an iteration's distinct processed contributions (a review can
    /// yield several enrichment rows, but is one unit of work) and moves to
    /// the next iteration; after the invocation's cap the cycle hands over.
    pub fn aggregate_iteration(&mut self, batches: &Vec<EnrichmentBatchResult>) -> (r: CycleNext)
        requires
            old(self).total_processed + wrap_i32(distinct_count(all_ids(batches@))) <= i32::MAX,
            old(self).total_processed + wrap_i32(distinct_count(all_ids(batches@))) >= i32::MIN,
            old(self).iteration < u32::MAX,
        ensures
            final(self).total_processed == old(self).total_processed + wrap_i32(distinct_count(all_ids(batches@))),
            final(self).iteration == old(self).iteration + 1,
            final(self).total_errors == old(self).total_errors,
            r == if final(self).iteration >= ENRICHMENT_MAX_ITERATIONS {
                CycleNext::HandOver
            } else {
                CycleNext::Continue
            },
    {
        let ids = distinct_contribution_ids(batches);
        let n = to_i32_wrapping(ids.len() as u64);
        self.total_processed = self.total_processed + n;
        self.iteration = self.iteration + 1;
        if self.iteration >= ENRICHMENT_MAX_ITERATIONS {
            CycleNext::HandOver
        } else {
            CycleNext::Continue
        }
    }

    /// Closes the run of a drained cycle: failed when there were errors and
    /// nothing was processed (`processed 0, errors {n}` and the first error,
    /// if any), completed with the items processed otherwise.
    pub fn finish(&self) -> (r: CycleEnd)
        ensures
            self.total_errors > 0 && self.total_processed == 0 ==> (r matches CycleEnd::Fail { message }
                && message@ == "processed 0, errors "@ + dec(self.total_errors as nat) + match self.first_error {
                Some(e) => ": "@ + e@,
                None => seq![],
            }),
            !(self.total_errors > 0 && self.total_processed == 0) ==> r == (CycleEnd::Complete {
                items: self.total_processed,
            }),
    {
        if self.total_errors > 0 && self.total_processed == 0 {
            let mut m = owned("processed 0, errors ");
            push_u64(&mut m, self.total_errors);
            match &self.first_error {
                Some(e) => {
                    push_str(&mut m, ": ");
                    push_str(&mut m, e.as_str());
                },
                None => {
                    proof {
                        assert(m@ + seq![] =~= m@);
                    }
                },
            }
            CycleEnd::Fail { message: m }
        } else {
            CycleEnd::Complete { items: self.total_processed }
        }
    }

    /// `Enrichment complete: {p} processed, {e} errors`.
    pub fn final_message(&self) -> (r: String)
        ensures
            r@ == "Enrichment complete: "@ + crate::text::dec_int(self.total_processed as int) + " processed, "@
                + dec(self.total_errors as nat) + " errors"@,
    {
        let mut m = owned("Enrichment complete: ");
        crate::text::push_i64(&mut m, self.total_processed as i64);
        push_str(&mut m, " processed, ");
        push_u64(&mut m, self.total_errors);
        push_str(&mut m, " errors");
        m
    }
}

pub open spec fn sum_processed(rs: Seq<EnrichmentBatchResult>) -> nat
    decreases rs.len(),
{
    if rs.len() == 0 {
        0
    } else {
        sum_processed(rs.drop_last()) + rs.last().processed as nat
    }
}

pub open spec fn sum_errors(rs: Seq<EnrichmentBatchResult>) -> nat
    decreases rs.len(),
{
    if rs.len() == 0 {
        0
    } else {
        sum_errors(rs.drop_last()) + rs.last().errors as nat
    }
}

/// `Batch complete: {rows} processed, {errors} errors ({total} total)`.
pub fn batch_complete_message(results: &Vec<EnrichmentBatchResult>, total_processed: i32) -> (r: String)
    requires
        sum_processed(results@) <= u64::MAX,
        sum_errors(results@) <= u64::MAX,
    ensures
        r@ == "Batch complete: "@ + dec(sum_processed(results@)) + " processed, "@ + dec(sum_errors(results@))
            + " errors ("@ + crate::text::dec_int(total_processed as int) + " total)"@,
{
    let mut p: u64 = 0;
    let mut e: u64 = 0;
    let mut i: usize = 0;
    while i < results.len()
        invariant
            i <= results@.len(),
            sum_processed(results@) <= u64::MAX,
            sum_errors(results@) <= u64::MAX,
            p == sum_processed(results@.take(i as int)),
            e == sum_errors(results@.take(i as int)),
        decreases results.len() - i,
    {
        proof {
            assert(results@.take(i + 1).drop_last() =~= results@.take(i as int));
            lemma_sums_prefix(results@, i + 1);
        }
        p = p + results[i].processed;
        e = e + results[i].errors;
        i = i + 1;
    }
    proof {
        assert(results@.take(results@.len() as int) =~= results@);
    }
    let mut m = owned("Batch complete: ");
    push_u64(&mut m, p);
    push_str(&mut m, " processed, ");
    push_u64(&mut m, e);
    push_str(&mut m, " errors (");
    crate::text::push_i64(&mut m, total_processed as i64);
    push_str(&mut m, " total)");
    m
}

proof fn lemma_sums_prefix(rs: Seq<EnrichmentBatchResult>, n: int)
    requires
        0 <= n <= rs.len(),
    ensures
        sum_processed(rs.take(n)) <= sum_processed(rs),
        sum_errors(rs.take(n)) <= sum_errors(rs),
    decreases rs.len() - n,
{
    if n < rs.len() {
        lemma_sums_prefix(rs, n + 1);
        assert(rs.take(n + 1).drop_last() =~= rs.take(n));
    } else {
        assert(rs.take(n) =~= rs);
    }
}

/// `{type}={count}` for every type with queued contributions, in order.
pub open spec fn batch_terms(batches: Seq<(EnrichmentType, usize)>) -> Seq<Seq<char>>
    decreases batches.len(),
{
    if batches.len() == 0 {
        seq![]
    } else {
        batch_terms(batches.drop_last()) + if batches.last().1 > 0 {
            seq![batches.last().0.name() + "="@ + dec(batches.last().1 as nat)]
        } else {
            seq![]
        }
    }
}

/// `Processing batches: review_depth=3, topic=1`.
pub fn processing_message(batches: &Vec<(EnrichmentType, usize)>) -> (r: String)
    ensures
        r@ == "Processing batches: "@ + join_spec(batch_terms(batches@), ", "@),
{
    let mut terms: Vec<String> = Vec::new();
    let mut i: usize = 0;
    while i < batches.len()
        invariant
            i <= batches@.len(),
            terms@.map_values(|s: String| s@) == batch_terms(batches@.take(i as int)),
        decreases batches.len() - i,
    {
        proof {
            assert(batches@.take(i + 1).drop_last() =~= batches@.take(i as int));
        }
        let (t, n) = batches[i];
        if n > 0 {
            let ghost before = terms@;
            let mut term = owned(t.as_str());
            push_str(&mut term, "=");
            push_u64(&mut term, n as u64);
            terms.push(term);
            proof {
                assert(terms@.map_values(|s: String| s@) =~= before.map_values(|s: String| s@).push(term@));
            }
        }
        i = i + 1;
    }
    proof {
        assert(batches@.take(batches@.len() as int) =~= batches@);
    }
    let mut m = owned("Processing batches: ");
    let joined = join_strings(&terms, ", ");
    push_str(&mut m, joined.as_str());
    m
}

/// Tokens an AI call consumed.
#[derive(Debug, Clone, Copy, PartialEq, Eq, Structural)]
pub struct TokenUsage {
    pub input_tokens: u64,
    pub output_tokens: u64,
}

/// The usage logged for an iteration: one `(input, output)` record per
/// batch that consumed any tokens, each count taken `as i32`.
pub open spec fn usage_records_spec(usages: Seq<TokenUsage>) -> Seq<(i32, i32)>
    decreases usages.len(),
{
    if usages.len() == 0 {
        Seq::empty()
    } else {
        let before = usage_records_spec(usages.drop_last());
        let u = usages.last();
        if u.input_tokens > 0 || u.output_tokens > 0 {
            before.push((u.input_tokens as i32, u.output_tokens as i32))
        } else {
            before
        }
    }
}

/// The usage records of an iteration's batches.
pub fn usage_records(usages: &Vec<TokenUsage>) -> (r: Vec<(i32, i32)>)
    ensures
        r@ == usage_records_spec(usages@),
{
    let mut out: Vec<(i32, i32)> = Vec::new();
    let mut i: usize = 0;
    while i < usages.len()
        invariant
            i <= usages@.len(),
            out@ == usage_records_spec(usages@.take(i as int)),
        decreases usages@.len() - i,
    {
        let u = usages[i];
        proof {
            assert(usages@.take(i + 1).drop_last() =~= usages@.take(i as int));
            assert(usages@.take(i + 1).last() == u);
        }
        if u.input_tokens > 0 || u.output_tokens > 0 {
            out.push((u.input_tokens as i32, u.output_tokens as i32));
        }
        i = i + 1;
    }
    proof {
        assert(usages@.take(usages@.len() as int) =~= usages@);
    }
    out
}

} // verus!
