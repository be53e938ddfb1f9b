use ps_workers::github::client::{parse_next_page, validate_path_segment, GitHubError};
use ps_workers::github::etag::normalise_endpoint;
use ps_workers::github::graphql::graphql_endpoint;
use ps_workers::github::source::is_valid_github_username;

#[test]
fn test_parse_next_page() {
    let link = r#"<https://api.github.com/repos/org/repo/pulls?page=2>; rel="next", <https://api.github.com/repos/org/repo/pulls?page=5>; rel="last""#;
    assert_eq!(parse_next_page(link), Some(2));
}

#[test]
fn test_parse_next_page_no_next() {
    let link = r#"<https://api.github.com/repos/org/repo/pulls?page=1>; rel="first""#;
    assert_eq!(parse_next_page(link), None);
}

#[test]
fn test_parse_next_page_with_other_params() {
    let link = r#"<https://api.github.com/repos/org/repo/pulls?state=all&per_page=100&page=3>; rel="next""#;
    assert_eq!(parse_next_page(link), Some(3));
}

#[test]
fn is_valid_github_username_accepts_valid() {
    assert!(is_valid_github_username("alice"));
    assert!(is_valid_github_username("user-name"));
    assert!(is_valid_github_username("User123"));
}

#[test]
fn is_valid_github_username_rejects_invalid() {
    assert!(!is_valid_github_username(""));
    assert!(!is_valid_github_username("user name"));
    assert!(!is_valid_github_username("user@name"));
    assert!(!is_valid_github_username("user/name"));
}

#[test]
fn test_graphql_endpoint_derivation() {
    assert_eq!(graphql_endpoint("https://api.github.com"), "https://api.github.com/graphql");
    assert_eq!(
        graphql_endpoint("https://github.example.com/api/v3"),
        "https://github.example.com/api/graphql"
    );
}

#[test]
fn graphql_endpoint_trims_trailing_slashes() {
    assert_eq!(graphql_endpoint("https://api.github.com//"), "https://api.github.com/graphql");
}

#[test]
fn normalise_endpoint_drops_query() {
    assert_eq!(normalise_endpoint("https://api.github.com/repos/a/b/pulls?page=2"), "https://api.github.com/repos/a/b/pulls");
    assert_eq!(normalise_endpoint("/repos/a/b"), "/repos/a/b");
}

#[test]
fn path_segments_are_validated() {
    assert!(validate_path_segment("canonical", "owner").is_ok());
    assert!(validate_path_segment("my.repo_1-x", "repo").is_ok());
    match validate_path_segment("a/b", "repo") {
        Err(GitHubError::InvalidPathSegment { label, value }) => {
            assert_eq!(label, "repo");
            assert_eq!(value, "a/b");
        }
        _ => panic!("expected an invalid path segment"),
    }
}
