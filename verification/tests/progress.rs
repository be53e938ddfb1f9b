use ps_workers::ingestion::contribution::{ContributionInput, ContributionMetrics, Metadata, Metrics};
use ps_workers::ingestion::progress::{
    build_discourse_progress, build_github_progress, build_jira_progress, build_progress_json,
    spec_for_source_type, DiscourseProgressTracker, GenericProgressTracker, GithubCursorView,
    GithubProgressTracker, JiraCursorView, JiraProgressTracker, RepoEntry, SecretKey,
};
use ps_workers::model::{ContributionType, Platform, RateLimitInfo};

fn make_item(ct: ContributionType) -> ContributionInput {
    ContributionInput {
        platform: Platform::Github,
        contribution_type: ct,
        platform_id: "test-1".into(),
        platform_username: "user".into(),
        title: Some("test".into()),
        url: None,
        state: None,
        created_at: 0,
        updated_at: None,
        closed_at: None,
        metrics: Metrics::Code(ContributionMetrics {
            additions: None,
            deletions: None,
            changed_files: None,
            review_count: None,
            draft: None,
            review_state: None,
        }),
        metadata: Metadata::Topic { category_id: None },
        content: None,
        state_history: None,
        enrichment_content: None,
    }
}

#[test]
fn github_progress_counts_prs_and_reviews() {
    let mut tracker = GithubProgressTracker::new();
    let items = vec![
        make_item(ContributionType::PullRequest),
        make_item(ContributionType::PullRequest),
        make_item(ContributionType::PrReview),
    ];
    tracker.count_batch(&items, 3);
    assert_eq!(tracker.prs_fetched, 2);
    assert_eq!(tracker.reviews_fetched, 1);
    assert_eq!(tracker.identities_skipped, 0);
}

#[test]
fn github_progress_counts_skipped_identities() {
    let mut tracker = GithubProgressTracker::new();
    let items = vec![make_item(ContributionType::PullRequest), make_item(ContributionType::PrReview)];
    // Only 1 stored out of 2 items: 1 identity skipped.
    tracker.count_batch(&items, 1);
    assert_eq!(tracker.identities_skipped, 1);
}

#[test]
fn github_final_progress_includes_counts() {
    let mut tracker = GithubProgressTracker::new();
    tracker.count_batch(&vec![make_item(ContributionType::PullRequest)], 1);
    let progress = tracker.build_final_progress();
    assert_eq!(progress.phase, "complete");
    assert_eq!(progress.counters[0], ("prs_fetched", 1));
    assert_eq!(progress.counters[1], ("reviews_fetched", 0));
}

#[test]
fn github_build_progress_team_repos_phase() {
    let cursor = GithubCursorView {
        phase: Some("TeamRepos".into()),
        repos: Some(vec![
            RepoEntry { owner: Some("canonical".into()), repo: Some("lxd".into()) },
            RepoEntry { owner: Some("canonical".into()), repo: Some("juju".into()) },
        ]),
        repo_index: Some(1),
        watermark: Some("2025-01-01T00:00:00Z".into()),
        search_users: None,
        search_user_index: None,
    };
    let tracker = GithubProgressTracker { prs_fetched: 5, reviews_fetched: 2, identities_skipped: 0 };
    let progress = build_progress_json(&cursor, &tracker, None);
    assert_eq!(progress.phase, "team_repos");
    assert_eq!(progress.repos_total, Some(2));
    assert_eq!(progress.repos_completed, Some(1));
    assert_eq!(progress.current_repo.as_deref(), Some("canonical/juju"));
    let msg = progress.status_message;
    assert!(msg.contains("canonical/juju"));
    assert!(msg.contains("2/2"));
    assert_eq!(msg, "Fetching PRs updated since 2025-01-01 from canonical/juju (2/2)");
}

#[test]
fn github_build_progress_member_search_phase() {
    let cursor = GithubCursorView {
        phase: Some("MemberSearch".into()),
        repos: None,
        repo_index: None,
        watermark: None,
        search_users: Some(vec![Some("alice".into()), Some("bob".into()), Some("carol".into())]),
        search_user_index: Some(0),
    };
    let tracker = GithubProgressTracker { prs_fetched: 10, reviews_fetched: 3, identities_skipped: 0 };
    let progress = build_progress_json(&cursor, &tracker, None);
    assert_eq!(progress.phase, "member_search");
    assert_eq!(progress.search_users_total, Some(3));
    assert!(progress.status_message.contains("alice"));
    assert_eq!(progress.status_message, "Searching cross-repo PRs for alice + 2 others (3/3)");
}

#[test]
fn github_progress_rate_limit_message() {
    let cursor = GithubCursorView {
        phase: Some("TeamRepos".into()),
        repos: Some(vec![]),
        repo_index: Some(0),
        watermark: None,
        search_users: None,
        search_user_index: None,
    };
    let tracker = GithubProgressTracker::new();
    let rl = RateLimitInfo { remaining: 42, limit: 5000, reset_at: 600_000_000_000 };
    let p = build_github_progress(&cursor, &tracker, Some(rl), 0);
    assert_eq!(p.status_message, "Rate limited — only 42 API calls remaining, resets in 10m");
    assert_eq!(p.rate_limit_remaining, Some(42));
    assert_eq!(p.rate_limit_limit, Some(5000));
    // Without pressure the phase speaks.
    let p = build_github_progress(&cursor, &tracker, None, 0);
    assert_eq!(p.status_message, "Fetching PRs updated since all time from unknown (1/0)");
}

#[test]
fn jira_progress_counts_tickets() {
    let mut tracker = JiraProgressTracker::new();
    let items = vec![
        make_item(ContributionType::JiraTicket),
        make_item(ContributionType::JiraTicket),
        make_item(ContributionType::JiraTicket),
    ];
    tracker.count_batch(&items);
    assert_eq!(tracker.tickets_fetched, 3);
}

#[test]
fn jira_final_progress() {
    let mut tracker = JiraProgressTracker::new();
    tracker.count_batch(&vec![make_item(ContributionType::JiraTicket)]);
    let progress = tracker.build_final_progress();
    assert_eq!(progress.phase, "complete");
    assert_eq!(progress.counters[0], ("tickets_fetched", 1));
}

#[test]
fn jira_build_progress_shows_project() {
    let cursor = JiraCursorView {
        projects: Some(vec![Some("PROJ-A".into()), Some("PROJ-B".into())]),
        project_index: Some(0),
        failed_items: Some(0),
    };
    let progress = build_jira_progress(&cursor, 5, None);
    assert_eq!(progress.current_project.as_deref(), Some("PROJ-A"));
    assert_eq!(progress.projects_total, 2);
    assert!(progress.status_message.contains("PROJ-A"));
    assert!(progress.status_message.contains("1/2"));
    assert!(progress.status_message.contains("5 so far"));
    assert_eq!(progress.phase, "project:PROJ-A");
}

#[test]
fn jira_build_progress_complete_phase() {
    // The index is past the end of the projects.
    let cursor = JiraCursorView { projects: Some(vec![Some("X".into())]), project_index: Some(1), failed_items: Some(0) };
    let progress = build_jira_progress(&cursor, 10, None);
    assert_eq!(progress.phase, "complete");
    assert!(progress.status_message.contains("complete"));
    assert_eq!(progress.status_message, "Jira ingestion complete (10 tickets)");
}

#[test]
fn discourse_progress_counts_all_items() {
    let mut tracker = DiscourseProgressTracker::new();
    let items = vec![
        make_item(ContributionType::DiscourseTopic),
        make_item(ContributionType::DiscourseTopic),
        make_item(ContributionType::DiscourseTopic),
    ];
    tracker.count_batch(&items);
    assert_eq!(tracker.topics_fetched, 3);
    tracker.count_batch(&vec![make_item(ContributionType::DiscourseTopic)]);
    assert_eq!(tracker.topics_fetched, 4);
}

#[test]
fn discourse_final_progress() {
    let mut tracker = DiscourseProgressTracker::new();
    tracker.count_batch(&vec![make_item(ContributionType::DiscourseTopic), make_item(ContributionType::DiscourseTopic)]);
    let progress = tracker.build_final_progress();
    assert_eq!(progress.phase, "complete");
    assert_eq!(progress.counters[0], ("topics_fetched", 2));
}

#[test]
fn discourse_build_progress_shows_count() {
    let progress = build_discourse_progress(15, None);
    assert_eq!(progress.phase, "topic_scan");
    assert_eq!(progress.topics_fetched, 15);
    assert!(progress.status_message.contains("15 items so far"));
}

#[test]
fn discourse_build_progress_with_rate_limit() {
    let rl = RateLimitInfo { remaining: 50, limit: 100, reset_at: 0 };
    let progress = build_discourse_progress(10, Some(rl));
    assert_eq!(progress.rate_limit_remaining, Some(50));
    assert_eq!(progress.rate_limit_limit, Some(100));
}

#[test]
fn generic_progress_message() {
    let mut tracker = GenericProgressTracker::new();
    tracker.count_batch(&vec![make_item(ContributionType::JiraTicket)]);
    assert_eq!(tracker.status_message(), "Processing (1 items fetched)");
    assert_eq!(tracker.build_final_progress().counters[0], ("items_fetched", 1));
}

#[test]
fn ingestion_specs_per_source() {
    let gh = spec_for_source_type(&Platform::Github);
    assert_eq!(gh.handler_name, "GithubIngestionHandler");
    assert_eq!(gh.token_key, Some(SecretKey::ApiToken));
    assert!(gh.token_required);
    assert_eq!(gh.item_noun, "repo");
    let jira = spec_for_source_type(&Platform::Jira);
    assert_eq!(jira.email_key, Some(SecretKey::Email));
    assert_eq!(jira.item_noun, "project");
    let d = spec_for_source_type(&Platform::Discourse("ubuntu".into()));
    assert_eq!(d.token_key, Some(SecretKey::ApiKey));
    assert!(!d.token_required);
    assert_eq!(d.api_username_key, Some(SecretKey::ApiUsername));
    assert_eq!(d.item_noun, "category");
    let other = spec_for_source_type(&Platform::Other("x".into()));
    assert_eq!(other.handler_name, "UnknownHandler");
    assert_eq!(other.token_key, None);
    assert_eq!(other.item_noun, "item");
}
