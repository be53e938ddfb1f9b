use ps_workers::github::contributions::{graphql_pr_to_contributions, search_pr_to_contributions};
use ps_workers::ingestion::contribution::{ContributionState, Metadata, Metrics};
use ps_workers::github::graphql::GraphQLClientError;
use ps_workers::github::source::{
    absorb_member_search_page, absorb_team_repo_page, begin_member_search, exhausted_rate_limit_at,
    initial_cursor, member_search_query, plan_fetch, rate_limit_exhausted, skip_failed_batch,
    skip_failed_repo, team_repo_query, FetchPlan, IngestionPhase, SearchPage,
};
use ps_workers::github::types::{
    GraphQLActor, GraphQLPageInfo, GraphQLPr, GraphQLReview, GraphQLReviewConnection, GraphQLSearchPr,
    GraphQLSearchRepo, GraphQLSearchRepoOwner,
};
use ps_workers::model::{ContributionType, RateLimitInfo, RepoTarget};

fn pr(number: u32, updated: Option<&str>, repo: Option<(&str, &str)>) -> GraphQLSearchPr {
    GraphQLSearchPr {
        number: Some(number),
        title: Some(format!("PR {number}")),
        state: Some("OPEN".into()),
        url: Some(format!("https://example.com/{number}")),
        is_draft: Some(false),
        created_at: Some("2025-01-01T00:00:00Z".into()),
        updated_at: updated.map(String::from),
        closed_at: None,
        merged_at: None,
        additions: Some(1),
        deletions: Some(2),
        changed_files: Some(1),
        author: Some(GraphQLActor { login: "alice".into() }),
        body_text: Some("body".into()),
        repository: repo.map(|(o, n)| GraphQLSearchRepo {
            name: n.into(),
            owner: GraphQLSearchRepoOwner { login: o.into() },
        }),
        labels: None,
        head_ref_name: None,
        base_ref_name: None,
        reviews: None,
    }
}

fn page(items: Vec<GraphQLSearchPr>, next: bool) -> SearchPage {
    SearchPage {
        items,
        has_next_page: next,
        end_cursor: if next { Some("CUR".into()) } else { None },
        rate_limit: RateLimitInfo { remaining: 4000, limit: 5000, reset_at: 0 },
    }
}

fn repos() -> Vec<RepoTarget> {
    vec![
        RepoTarget { owner: "canonical".into(), repo: "lxd".into() },
        RepoTarget { owner: "canonical".into(), repo: "juju".into() },
    ]
}

#[test]
fn search_queries() {
    assert_eq!(team_repo_query("canonical", "lxd", &None), "repo:canonical/lxd type:pr");
    assert_eq!(
        team_repo_query("canonical", "lxd", &Some("2025-01-01T00:00:00Z".into())),
        "repo:canonical/lxd type:pr updated:>2025-01-01T00:00:00Z"
    );
    // An empty watermark adds no filter.
    assert_eq!(team_repo_query("o", "r", &Some(String::new())), "repo:o/r type:pr");
    let users = vec!["alice".to_string(), "bad user".to_string(), "bob".to_string()];
    let orgs = vec!["canonical".to_string()];
    assert_eq!(
        member_search_query(&users, 0, 3, &orgs, &None),
        "type:pr author:alice author:bob org:canonical"
    );
}

#[test]
fn team_phase_walks_repos() {
    let mut cur = initial_cursor(Some("2025-01-01T00:00:00Z".into()), repos());
    match plan_fetch(&cur) {
        FetchPlan::SearchTeamRepo { owner, repo, query, after } => {
            assert_eq!(owner, "canonical");
            assert_eq!(repo, "lxd");
            assert_eq!(query, "repo:canonical/lxd type:pr updated:>2025-01-01T00:00:00Z");
            assert_eq!(after, None);
        }
        _ => panic!("expected a team repo search"),
    }
    let items = absorb_team_repo_page(
        &mut cur,
        "canonical",
        "lxd",
        page(vec![pr(1, Some("2025-02-01T00:00:00Z"), None), pr(2, None, None)], true),
    )
    .unwrap();
    // Only the pull request with an update time yields records.
    assert_eq!(items.len(), 1);
    assert_eq!(items[0].platform_id, "canonical/lxd/pull/1");
    assert_eq!(cur.max_updated_at.as_deref(), Some("2025-02-01T00:00:00Z"));
    assert_eq!(cur.graphql_cursor.as_deref(), Some("CUR"));
    assert_eq!(cur.repo_index, 0);
    assert_eq!(cur.ingested_repos, vec!["canonical/lxd".to_string()]);

    absorb_team_repo_page(&mut cur, "canonical", "lxd", page(vec![pr(3, Some("2025-01-15T00:00:00Z"), None)], false)).unwrap();
    // The maximum only grows.
    assert_eq!(cur.max_updated_at.as_deref(), Some("2025-02-01T00:00:00Z"));
    assert_eq!(cur.repo_index, 1);
    assert_eq!(cur.graphql_cursor, None);
    assert_eq!(cur.ingested_repos.len(), 1);

    skip_failed_repo(&mut cur, "HTTP error: timeout".into());
    assert_eq!(cur.repo_index, 2);
    assert_eq!(cur.failed_items[0].key, "canonical/juju");
    assert_eq!(cur.failed_items[0].error, "HTTP error: timeout");
    assert!(matches!(plan_fetch(&cur), FetchPlan::LoadSearchUsers));

    cur.last_rate_limit_remaining = Some(10);
    assert!(matches!(plan_fetch(&cur), FetchPlan::Finished));
}

#[test]
fn member_phase_skips_ingested_repos() {
    let mut cur = initial_cursor(None, repos());
    cur.repo_index = 2;
    cur.ingested_repos = vec!["canonical/lxd".into()];
    let users: Vec<String> = vec!["a", "b", "c", "d", "e", "f", "g"].into_iter().map(String::from).collect();
    match begin_member_search(&mut cur, users, vec!["canonical".into()]) {
        FetchPlan::SearchMembers { query, after, batch_end } => {
            assert_eq!(batch_end, 5);
            assert_eq!(query, "type:pr author:a author:b author:c author:d author:e org:canonical");
            assert_eq!(after, None);
        }
        _ => panic!("expected a member search"),
    }
    assert_eq!(cur.phase, IngestionPhase::MemberSearch);
    let items = absorb_member_search_page(
        &mut cur,
        5,
        page(
            vec![
                pr(1, Some("2025-03-01T00:00:00Z"), Some(("canonical", "lxd"))),
                pr(2, Some("2025-02-01T00:00:00Z"), Some(("other", "tool"))),
                pr(3, Some("2025-04-01T00:00:00Z"), None),
            ],
            false,
        ),
    )
    .unwrap();
    assert_eq!(items.len(), 1);
    assert_eq!(items[0].platform_id, "other/tool/pull/2");
    assert_eq!(cur.max_updated_at.as_deref(), Some("2025-02-01T00:00:00Z"));
    assert_eq!(cur.search_user_index, 5);
    match plan_fetch(&cur) {
        FetchPlan::SearchMembers { batch_end, query, .. } => {
            assert_eq!(batch_end, 7);
            assert_eq!(query, "type:pr author:f author:g org:canonical");
        }
        _ => panic!("expected the second batch"),
    }
    skip_failed_batch(&mut cur, 7, "GraphQL errors: boom".into());
    assert_eq!(cur.failed_items[0].key, "member_search[f, g]");
    assert!(matches!(plan_fetch(&cur), FetchPlan::Finished));
    // No usernames: nothing to search.
    let mut other = initial_cursor(None, vec![]);
    assert!(matches!(begin_member_search(&mut other, vec![], vec![]), FetchPlan::Finished));
}

#[test]
fn rate_limit_errors() {
    assert!(rate_limit_exhausted(&GraphQLClientError::GraphQL { messages: "API rate limit exceeded".into() }));
    assert!(!rate_limit_exhausted(&GraphQLClientError::GraphQL { messages: "bad query".into() }));
    assert!(!rate_limit_exhausted(&GraphQLClientError::Http("rate limit".into())));
    let rl = exhausted_rate_limit_at(0);
    assert_eq!((rl.remaining, rl.limit, rl.reset_at), (0, 5000, 3_600_000_000_000));
}

#[test]
fn search_pr_records() {
    let mut p = pr(7, Some("2025-02-01T00:00:00Z"), None);
    p.merged_at = Some("2025-02-02T00:00:00Z".into());
    p.reviews = Some(GraphQLReviewConnection {
        page_info: GraphQLPageInfo { has_next_page: false, end_cursor: None },
        nodes: vec![GraphQLReview {
            database_id: Some(99),
            state: "APPROVED".into(),
            body: Some("Looks fine".into()),
            submitted_at: Some("2025-02-01T10:00:00Z".into()),
            author: Some(GraphQLActor { login: "bob".into() }),
            comments: None,
        }],
    });
    let items = search_pr_to_contributions("canonical", "lxd", &p).unwrap();
    assert_eq!(items.len(), 2);
    assert_eq!(items[0].contribution_type, ContributionType::PullRequest);
    assert_eq!(items[0].platform_username, "alice");
    assert_eq!(items[1].contribution_type, ContributionType::PrReview);
    assert_eq!(items[1].platform_id, "canonical/lxd/review/99");
    assert_eq!(items[1].platform_username, "bob");

    let mut bad = pr(8, Some("not a date"), None);
    bad.reviews = None;
    assert!(search_pr_to_contributions("o", "r", &bad).is_err());
}

#[test]
fn search_pr_logins_urls_and_enrichment() {
    let mut p = pr(99, Some("2024-02-01T00:00:00Z"), None);
    p.state = Some("CLOSED".into());
    p.created_at = Some("2024-02-01T00:00:00Z".into());
    p.merged_at = Some("2024-02-05T00:00:00Z".into());
    p.additions = Some(40);
    p.deletions = Some(10);
    p.url = Some("https://github.com/org/r/pull/99".into());
    p.author = Some(GraphQLActor { login: "Alice".into() });
    p.reviews = Some(GraphQLReviewConnection {
        page_info: GraphQLPageInfo { has_next_page: false, end_cursor: None },
        nodes: vec![GraphQLReview {
            database_id: Some(7),
            state: "APPROVED".into(),
            body: None,
            submitted_at: None,
            author: Some(GraphQLActor { login: "Bob".into() }),
            comments: None,
        }],
    });
    let v = search_pr_to_contributions("org", "r", &p).unwrap();
    assert_eq!(v.len(), 2);
    assert_eq!(v[0].platform_id, "org/r/pull/99");
    assert_eq!(v[0].platform_username, "alice");
    assert!(matches!(v[0].state, Some(ContributionState::Merged)));
    assert!(v[0].enrichment_content.is_none());
    assert_eq!(v[1].platform_id, "org/r/review/7");
    assert_eq!(v[1].platform_username, "bob");
    assert_eq!(v[1].title.as_deref(), Some("Review on #99"));
    assert_eq!(v[1].url.as_deref(), Some("https://github.com/org/r/pull/99#pullrequestreview-7"));
    assert_eq!(v[1].created_at, 1_706_745_600_000_000_000);

    p.additions = Some(41);
    let big = search_pr_to_contributions("org", "r", &p).unwrap();
    assert!(big[0].enrichment_content.is_some());
    p.additions = None;
    p.deletions = None;
    assert!(search_pr_to_contributions("org", "r", &p).unwrap()[0].enrichment_content.is_none());
}

fn listed_pr(state: &str, merged: bool, closed: Option<&str>) -> GraphQLPr {
    GraphQLPr {
        number: 12,
        title: "Fix race".into(),
        state: state.into(),
        url: "https://github.com/canonical/lxd/pull/12".into(),
        is_draft: true,
        created_at: "2025-01-01T00:00:00Z".into(),
        updated_at: "2025-01-02T00:00:00Z".into(),
        closed_at: closed.map(String::from),
        merged_at: if merged { Some("2025-01-03T00:00:00Z".into()) } else { None },
        additions: Some(10),
        deletions: None,
        changed_files: Some(2),
        author: None,
        body_text: None,
        labels: None,
        head_ref_name: Some("fix".into()),
        base_ref_name: Some("main".into()),
        reviews: GraphQLReviewConnection {
            page_info: GraphQLPageInfo { has_next_page: false, end_cursor: None },
            nodes: vec![
                GraphQLReview {
                    database_id: Some(7),
                    state: "COMMENTED".into(),
                    body: Some("nit".into()),
                    submitted_at: None,
                    author: None,
                    comments: None,
                },
                GraphQLReview {
                    database_id: None,
                    state: "APPROVED".into(),
                    body: None,
                    submitted_at: Some("2025-01-05T00:00:00Z".into()),
                    author: Some(GraphQLActor { login: "bob".into() }),
                    comments: None,
                },
            ],
        },
    }
}

#[test]
fn listed_pr_records() {
    let p = listed_pr("CLOSED", false, Some("2025-01-04T00:00:00Z"));
    let items = graphql_pr_to_contributions("canonical", "lxd", &p, "alice").unwrap();
    assert_eq!(items.len(), 3);
    let pr_item = &items[0];
    assert_eq!(pr_item.platform_id, "canonical/lxd/pull/12");
    assert_eq!(pr_item.platform_username, "alice");
    assert!(matches!(pr_item.state, Some(ContributionState::Closed)));
    assert_eq!(pr_item.created_at, 1_735_689_600_000_000_000);
    let history = pr_item.state_history.as_ref().unwrap();
    assert_eq!(history.len(), 2);
    assert_eq!(history[1].state, "closed");
    assert_eq!(history[1].at, "2025-01-04T00:00:00Z");
    match &pr_item.metrics {
        Metrics::Code(m) => {
            assert_eq!(m.additions, Some(10));
            assert_eq!(m.deletions, None);
            assert_eq!(m.review_count, Some(2));
            assert_eq!(m.draft, Some(true));
        }
        _ => panic!("pull request metrics expected"),
    }
    match &pr_item.metadata {
        Metadata::Code(md) => {
            assert!(md.repo.is_none());
            assert_eq!(md.labels.as_ref().map(|l| l.len()), Some(0));
            assert_eq!(md.head_ref.as_deref(), Some("fix"));
        }
        _ => panic!("pull request metadata expected"),
    }
    assert!(pr_item.enrichment_content.is_none());

    let first = &items[1];
    assert_eq!(first.platform_id, "canonical/lxd/review/7");
    assert_eq!(first.platform_username, "");
    assert_eq!(first.title.as_deref(), Some("Review on #12"));
    assert_eq!(first.url.as_deref(), Some("https://github.com/canonical/lxd/pull/12/reviews/7"));
    assert_eq!(first.created_at, pr_item.created_at);
    assert!(first.updated_at.is_none());
    assert_eq!(first.content.as_deref(), Some("nit"));
    let second = &items[2];
    assert_eq!(second.platform_id, "canonical/lxd/review/0");
    assert_eq!(second.platform_username, "bob");
    assert_eq!(second.updated_at, Some(second.created_at));
    assert!(matches!(&second.state, Some(ContributionState::Other(s)) if s == "APPROVED"));
}

#[test]
fn listed_pr_states() {
    let merged = graphql_pr_to_contributions("o", "r", &listed_pr("OPEN", true, None), "a").unwrap();
    assert!(matches!(merged[0].state, Some(ContributionState::Merged)));
    assert_eq!(merged[0].state_history.as_ref().unwrap().len(), 1);
    let open = graphql_pr_to_contributions("o", "r", &listed_pr("OPEN", false, None), "a").unwrap();
    assert!(matches!(open[0].state, Some(ContributionState::Open)));
    let odd = graphql_pr_to_contributions("o", "r", &listed_pr("DRAFTED", false, None), "a").unwrap();
    assert!(matches!(&odd[0].state, Some(ContributionState::Other(s)) if s == "DRAFTED"));

    let mut bad = listed_pr("OPEN", false, None);
    bad.reviews.nodes[1].submitted_at = Some("yesterday".into());
    assert!(graphql_pr_to_contributions("o", "r", &bad, "a").is_err());
}
