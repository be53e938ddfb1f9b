use ps_workers::ingestion::attribution::{
    attribute_discourse_batch, attribute_github_batch, batch_usernames, lookup_person,
};
use ps_workers::ingestion::contribution::{ContributionInput, ContributionMetrics, Metadata, Metrics};
use ps_workers::model::{ContributionType, Platform};

fn by(user: &str) -> ContributionInput {
    ContributionInput {
        platform: Platform::Github,
        contribution_type: ContributionType::PullRequest,
        platform_id: format!("id-{user}"),
        platform_username: user.into(),
        title: None,
        url: None,
        state: None,
        created_at: 0,
        updated_at: None,
        closed_at: None,
        metrics: Metrics::Code(ContributionMetrics {
            additions: None,
            deletions: None,
            changed_files: None,
            review_count: None,
            draft: None,
            review_state: None,
        }),
        metadata: Metadata::Topic { category_id: None },
        content: None,
        state_history: None,
        enrichment_content: None,
    }
}

#[test]
fn usernames_are_distinct() {
    let items = vec![by("ada"), by(""), by("bob"), by("ada"), by("")];
    assert_eq!(batch_usernames(&items, false), vec!["ada", "", "bob"]);
    assert_eq!(batch_usernames(&items, true), vec!["ada", "bob"]);
}

#[test]
fn github_batches_keep_known_authors() {
    let items = vec![by("ada"), by("eve"), by("bob"), by("ada")];
    let resolved = vec![("ada".to_string(), 1u128), ("bob".to_string(), 2u128)];
    assert_eq!(lookup_person(&resolved, "bob"), Some(2));
    assert_eq!(lookup_person(&resolved, "eve"), None);
    let (kept, skipped) = attribute_github_batch(&items, &resolved);
    assert_eq!(kept, vec![(0, 1), (2, 2), (3, 1)]);
    assert_eq!(skipped, 1);
}

#[test]
fn discourse_batches_keep_everything() {
    let items = vec![by("ada"), by(""), by("eve")];
    let resolved = vec![("ada".to_string(), 1u128), ("".to_string(), 9u128)];
    assert_eq!(attribute_discourse_batch(&items, &resolved), vec![Some(1), None, None]);
}
