use ps_workers::github::diffs::{
    attach_diff, diff_targets, skipped_from, truncate_diff, DiffAssembly, FileChange, PageOutcome,
};
use ps_workers::ingestion::contribution::{ContributionInput, ContributionMetrics, EnrichmentContent, Metadata, Metrics};
use ps_workers::model::{ContributionType, Platform};

fn item(t: ContributionType, id: &str) -> ContributionInput {
    ContributionInput {
        platform: Platform::Github,
        contribution_type: t,
        platform_id: id.into(),
        platform_username: "u".into(),
        title: None,
        url: None,
        state: None,
        created_at: 0,
        updated_at: None,
        closed_at: None,
        metrics: Metrics::Code(ContributionMetrics {
            additions: None,
            deletions: None,
            changed_files: None,
            review_count: None,
            draft: None,
            review_state: None,
        }),
        metadata: Metadata::Topic { category_id: None },
        content: None,
        state_history: None,
        enrichment_content: None,
    }
}

#[test]
fn targets_are_pull_requests_with_numbers() {
    let items = vec![
        item(ContributionType::PullRequest, "canonical/lxd/pull/12"),
        item(ContributionType::PrReview, "canonical/lxd/review/5"),
        item(ContributionType::PullRequest, "canonical/lxd/pull/x"),
        item(ContributionType::PullRequest, "too/short"),
        item(ContributionType::PullRequest, "o/r/pull/7"),
    ];
    let t = diff_targets(&items);
    assert_eq!(t.len(), 2);
    assert_eq!((t[0].item_index, t[0].owner.as_str(), t[0].repo.as_str(), t[0].pr_number), (0, "canonical", "lxd", 12));
    assert_eq!((t[1].item_index, t[1].pr_number), (4, 7));
    let skipped = skipped_from(&t, 1);
    assert_eq!(skipped.len(), 1);
    assert_eq!(skipped[0].item_index, 4);
}

fn file(name: &str, patch: Option<&str>) -> FileChange {
    FileChange { filename: name.into(), patch: patch.map(String::from) }
}

#[test]
fn diff_pages_assemble_patches() {
    let mut d = DiffAssembly::new();
    let out = d.absorb_page(&vec![file("a.rs", Some("+x")), file("bin", None), file("b.rs", Some("-y"))], 4000, Some(2));
    assert!(matches!(out, PageOutcome::NextPage(2)));
    assert_eq!(d.combined, "--- a/a.rs\n+++ b/a.rs\n+x\n--- a/b.rs\n+++ b/b.rs\n-y");
    // A low budget keeps what was assembled.
    assert!(matches!(d.absorb_page(&vec![file("c.rs", Some("+z"))], 10, None), PageOutcome::Done));
    assert!(!d.combined.contains("c.rs"));
    // An exhausted budget before anything was assembled is a rate limit.
    let mut e = DiffAssembly::new();
    assert!(matches!(e.absorb_page(&vec![], 0, None), PageOutcome::RateLimited));
}

#[test]
fn large_diffs_are_truncated_on_a_line() {
    let line = "x".repeat(99);
    let mut big = String::new();
    for _ in 0..300 {
        big.push_str(&line);
        big.push('\n');
    }
    let t = truncate_diff(&big);
    assert!(t.ends_with("\n...(truncated)"));
    let body = &t[..t.len() - "\n...(truncated)".len()];
    assert!(body.len() <= 20000);
    assert_eq!(body.len(), 19999);
    let mut d = DiffAssembly::new();
    let out = d.absorb_page(&vec![file("big.txt", Some(&big))], 4000, None);
    assert!(matches!(out, PageOutcome::Truncated));
    assert!(d.combined.ends_with("...(truncated)"));
}

#[test]
fn diffs_attach_to_pull_request_content() {
    let mut it = item(ContributionType::PullRequest, "o/r/pull/1");
    assert!(!attach_diff(&mut it, "d".into()));
    it.enrichment_content = Some(EnrichmentContent::PullRequest {
        title: "t".into(),
        description: String::new(),
        labels: vec![],
        additions: 0,
        deletions: 0,
        changed_files: 0,
        draft: false,
        diff: None,
    });
    assert!(attach_diff(&mut it, "the diff".into()));
    match it.enrichment_content {
        Some(EnrichmentContent::PullRequest { diff, .. }) => assert_eq!(diff.as_deref(), Some("the diff")),
        _ => panic!("content lost"),
    }
}
