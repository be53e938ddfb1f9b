use ps_workers::reasoning::cycle::{
    batch_complete_message, processing_message, distinct_contribution_ids, usage_records, CycleEnd, CycleNext, TokenUsage,
    EmbeddingBatchResult, EmbeddingCycle, EnrichmentBatchResult, EnrichmentCycle, EnrichmentType,
};

#[test]
fn embedding_cycle_drains_and_hands_over() {
    let mut c = EmbeddingCycle::new(None);
    let r = EmbeddingBatchResult { embedded: 90, skipped: 5, errors: 5 };
    assert_eq!(c.absorb(100, r), CycleNext::Continue);
    assert_eq!(c.absorb(40, r), CycleNext::Drained);
    assert_eq!(c.total_embedded, 180);
    assert_eq!(c.status_message(), "Embedded 180, skipped 10, errors 10");
    assert_eq!(c.finish(), CycleEnd::Complete { items: 180 });

    let mut c = EmbeddingCycle::new(Some(-3));
    assert_eq!(c.total_embedded, 0);
    for _ in 0..19 {
        assert_eq!(c.absorb(100, EmbeddingBatchResult { embedded: 0, skipped: 0, errors: 1 }), CycleNext::Continue);
    }
    assert_eq!(c.absorb(100, EmbeddingBatchResult { embedded: 0, skipped: 0, errors: 1 }), CycleNext::HandOver);
    assert_eq!(c.finish(), CycleEnd::Fail { message: "all 20 items failed".into() });
    assert_eq!(EmbeddingCycle::new(Some(12)).items_so_far(), 12);
}

fn batch(t: EnrichmentType, processed: u64, errors: u64, ids: Vec<u128>, err: Option<&str>) -> EnrichmentBatchResult {
    EnrichmentBatchResult {
        enrichment_type: t,
        processed,
        errors,
        first_error: err.map(String::from),
        successful_contribution_ids: ids,
    }
}

#[test]
fn enrichment_counts_distinct_contributions() {
    let batches = vec![
        batch(EnrichmentType::ReviewDepth, 2, 0, vec![3, 1], None),
        batch(EnrichmentType::Sentiment, 2, 1, vec![1, 2], Some("timeout")),
        batch(EnrichmentType::Topic, 0, 1, vec![], Some("later")),
    ];
    assert_eq!(distinct_contribution_ids(&batches), std::collections::HashSet::from([1, 2, 3]));
    let mut c = EnrichmentCycle::new(Some(10));
    for b in &batches {
        c.aggregate_batch(b);
    }
    assert_eq!(c.first_error.as_deref(), Some("timeout"));
    assert_eq!(c.total_errors, 2);
    assert_eq!(c.sentiment.processed, 2);
    assert_eq!(c.topic.errors, 1);
    assert_eq!(c.aggregate_iteration(&batches), CycleNext::Continue);
    assert_eq!(c.total_processed, 13);
    assert_eq!(c.finish(), CycleEnd::Complete { items: 13 });
    assert_eq!(c.final_message(), "Enrichment complete: 13 processed, 2 errors");
    assert_eq!(batch_complete_message(&batches, c.total_processed), "Batch complete: 4 processed, 2 errors (13 total)");
}

#[test]
fn enrichment_failure_and_messages() {
    let mut c = EnrichmentCycle::new(None);
    c.aggregate_batch(&batch(EnrichmentType::Significance, 0, 3, vec![], Some("quota")));
    assert_eq!(c.finish(), CycleEnd::Fail { message: "processed 0, errors 3: quota".into() });
    let mut c = EnrichmentCycle::new(None);
    c.aggregate_batch(&batch(EnrichmentType::Significance, 0, 3, vec![], None));
    assert_eq!(c.finish(), CycleEnd::Fail { message: "processed 0, errors 3".into() });
    assert_eq!(
        processing_message(&vec![(EnrichmentType::ReviewDepth, 3), (EnrichmentType::Sentiment, 0), (EnrichmentType::Topic, 1)]),
        "Processing batches: review_depth=3, topic=1"
    );
    let mut c = EnrichmentCycle::new(None);
    for _ in 0..9 {
        assert_eq!(c.aggregate_iteration(&vec![]), CycleNext::Continue);
    }
    assert_eq!(c.aggregate_iteration(&vec![]), CycleNext::HandOver);
}

#[test]
fn usage_is_logged_for_batches_with_tokens() {
    let usages = vec![
        TokenUsage { input_tokens: 10, output_tokens: 5 },
        TokenUsage { input_tokens: 0, output_tokens: 0 },
        TokenUsage { input_tokens: 0, output_tokens: 3 },
        TokenUsage { input_tokens: 1 << 32, output_tokens: 1 },
    ];
    assert_eq!(usage_records(&usages), vec![(10, 5), (0, 3), (0, 1)]);
}
