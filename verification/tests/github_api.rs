use ps_workers::errors::terminal_err;
use ps_workers::github::client::{
    list_org_repos_url, list_org_teams_url, list_pr_files_url, list_pulls_url, list_reviews_url,
    list_team_members_url, list_team_repos_url, parse_rate_limit_headers, trim_base_url, GitHubError,
    ListPullsParams,
};
use ps_workers::github::graphql::{interpret_response, GraphQLClientError, GraphQLRateLimit, GraphQLResponse};
use ps_workers::github::source::exhausted_rate_limit;
use ps_workers::ingestion::batch::diff_rate_limit_sleep_duration;
use ps_workers::model::RateLimitInfo;
use ps_workers::pipeline::stages::{
    build_handler_list, build_initial_stages, mark_stage_skipped, SourceInfo, StageStatus,
};

const BASE: &str = "https://api.github.com";

#[test]
fn rate_limit_headers() {
    let rl = parse_rate_limit_headers(Some("4999"), Some("5000"), Some("1700000000"));
    assert_eq!(rl.remaining, 4999);
    assert_eq!(rl.limit, 5000);
    assert_eq!(rl.reset_at, 1_700_000_000_000_000_000);
    let missing = parse_rate_limit_headers(None, Some("x"), Some("nope"));
    assert_eq!(missing.remaining, 0);
    assert_eq!(missing.limit, 0);
    assert_eq!(missing.reset_at, 0);
}

#[test]
fn base_urls_lose_trailing_slashes() {
    assert_eq!(trim_base_url("https://ghe.example.com/api/v3//"), "https://ghe.example.com/api/v3");
    assert_eq!(trim_base_url(BASE), BASE);
}

#[test]
fn request_urls() {
    let params = ListPullsParams {
        owner: "canonical",
        repo: "lxd",
        state: "all",
        page: 2,
        per_page: 100,
        since: Some("2025-01-01T00:00:00Z"),
        if_none_match: None,
    };
    assert_eq!(
        list_pulls_url(BASE, &params).unwrap(),
        "https://api.github.com/repos/canonical/lxd/pulls?state=all&sort=updated&direction=asc&per_page=100&page=2&since=2025-01-01T00:00:00Z"
    );
    let bad = ListPullsParams { owner: "../etc", ..params };
    assert!(matches!(list_pulls_url(BASE, &bad), Err(GitHubError::InvalidPathSegment { .. })));
    assert_eq!(
        list_reviews_url(BASE, "canonical", "lxd", 7).unwrap(),
        "https://api.github.com/repos/canonical/lxd/pulls/7/reviews?per_page=100"
    );
    assert_eq!(
        list_pr_files_url(BASE, "canonical", "lxd", 7, 3).unwrap(),
        "https://api.github.com/repos/canonical/lxd/pulls/7/files?per_page=100&page=3"
    );
    assert_eq!(
        list_org_repos_url(BASE, "canonical", 1, 50).unwrap(),
        "https://api.github.com/orgs/canonical/repos?type=all&sort=updated&per_page=50&page=1"
    );
    assert_eq!(
        list_org_teams_url(BASE, "canonical", 4).unwrap(),
        "https://api.github.com/orgs/canonical/teams?per_page=100&page=4"
    );
    assert_eq!(
        list_team_members_url(BASE, "canonical", "lxd-team", 1).unwrap(),
        "https://api.github.com/orgs/canonical/teams/lxd-team/members?per_page=100&page=1"
    );
    assert_eq!(
        list_team_repos_url(BASE, "canonical", "lxd-team", 1).unwrap(),
        "https://api.github.com/orgs/canonical/teams/lxd-team/repos?per_page=100&page=1"
    );
    assert!(list_team_repos_url(BASE, "canonical", "a b", 1).is_err());
}

fn header() -> RateLimitInfo {
    RateLimitInfo { remaining: 4000, limit: 5000, reset_at: 10 }
}

#[test]
fn graphql_responses() {
    let ok = GraphQLResponse {
        data: Some(5u32),
        errors: None,
        rate_limit: Some(GraphQLRateLimit {
            remaining: Some(4990),
            limit: None,
            reset_at: Some("2025-01-01T00:00:00Z".into()),
        }),
    };
    let (d, rl) = interpret_response(ok, header()).unwrap();
    assert_eq!(d, 5);
    assert_eq!(rl.remaining, 4990);
    assert_eq!(rl.limit, 5000);
    assert_eq!(rl.reset_at, 1_735_689_600_000_000_000);

    let errs = GraphQLResponse::<u32> {
        data: Some(1),
        errors: Some(vec!["first".into(), "second".into()]),
        rate_limit: None,
    };
    assert!(matches!(
        interpret_response(errs, header()),
        Err(GraphQLClientError::GraphQL { messages }) if messages == "first; second"
    ));
}

#[test]
fn exhausted_budget_resets_within_the_hour() {
    let rl = exhausted_rate_limit();
    assert_eq!(rl.remaining, 0);
    assert_eq!(rl.limit, 5000);
    assert!(rl.reset_at > 0);
}

#[test]
fn past_resets_sleep_at_least_a_second() {
    assert!(diff_rate_limit_sleep_duration(&RateLimitInfo { remaining: 0, limit: 5000, reset_at: 0 }) >= 1);
}

#[test]
fn handler_lists() {
    let sources = vec![
        SourceInfo { name: "GitHub".into(), source_type: "github".into() },
        SourceInfo { name: "Forum".into(), source_type: "discourse".into() },
    ];
    let list = build_handler_list(&sources, true, true);
    let stages: Vec<&str> = list.iter().map(|(s, _)| *s).collect();
    assert_eq!(
        stages,
        vec!["team_sync", "ingestion", "metrics", "enrichment", "embedding", "insights", "identity_resolution"]
    );
    assert_eq!(list[0].1, vec!["GitHub Team Sync"]);
    assert_eq!(list[1].1, vec!["GitHub", "Forum"]);
    let plain = build_handler_list(&sources, false, false);
    assert_eq!(plain.len(), 5);
    assert_eq!(plain[0].0, "ingestion");
}

#[test]
fn skipped_stages() {
    let sources = vec![SourceInfo { name: "Jira".into(), source_type: "jira".into() }];
    let names = build_handler_list(&sources, false, false);
    let mut stages = build_initial_stages(false, false, &names);
    mark_stage_skipped(&mut stages, "metrics");
    let metrics = stages.entries.iter().find(|e| e.name == "metrics").unwrap();
    assert_eq!(metrics.status, Some(StageStatus::Skipped));
    let ingestion = stages.entries.iter().find(|e| e.name == "ingestion").unwrap();
    assert_eq!(ingestion.status, Some(StageStatus::Pending));
}

#[test]
fn terminal_errors_carry_their_context() {
    let e = terminal_err("db error", "connection refused");
    assert!(e.to_string().contains("db error: connection refused"));
}

#[test]
fn call_results_record_the_error_text() {
    let ok = ps_workers::pipeline::stages::call_result("GitHub".into(), &Ok(()));
    assert_eq!(ok.status, StageStatus::Completed);
    assert!(ok.error.is_none());
    let failed = ps_workers::pipeline::stages::call_result("GitHub".into(), &Err(terminal_err("db error", "timeout")));
    assert_eq!(failed.status, StageStatus::Failed);
    assert_eq!(failed.error.as_deref(), Some("Terminal error [500]: db error: timeout"));
    assert!(failed.items.is_none());
}

#[test]
fn whitespace_matches_unicode() {
    for c in (0u32..=0x10FFFF).filter_map(char::from_u32) {
        assert_eq!(ps_workers::text::is_whitespace(c), c.is_whitespace(), "{:?}", c);
    }
}
