//! Response types of the GitHub GraphQL and REST APIs, as plain data.
use vstd::prelude::*;

verus! {

/// Top-level data wrapper for the PR fetch query.
#[derive(Debug, Clone)]
pub struct GraphQLRepoData {
    pub repository: GraphQLRepository,
}

#[derive(Debug, Clone)]
pub struct GraphQLRepository {
    pub pull_requests: GraphQLPrConnection,
}

#[derive(Debug, Clone)]
pub struct GraphQLPrConnection {
    pub page_info: GraphQLPageInfo,
    pub nodes: Vec<GraphQLPr>,
}

/// A pull request as returned by the repository query.
#[derive(Debug, Clone)]
pub struct GraphQLPr {
    pub number: u32,
    pub title: String,
    pub state: String,
    pub url: String,
    pub is_draft: bool,
    pub created_at: String,
    pub updated_at: String,
    pub closed_at: Option<String>,
    pub merged_at: Option<String>,
    pub additions: Option<u32>,
    pub deletions: Option<u32>,
    pub changed_files: Option<u32>,
    pub author: Option<GraphQLActor>,
    pub body_text: Option<String>,
    pub labels: Option<GraphQLLabelConnection>,
    pub head_ref_name: Option<String>,
    pub base_ref_name: Option<String>,
    pub reviews: GraphQLReviewConnection,
}

/// A review as returned by the GraphQL API.
#[derive(Debug, Clone)]
pub struct GraphQLReview {
    pub database_id: Option<u64>,
    pub state: String,
    pub body: Option<String>,
    pub submitted_at: Option<String>,
    pub author: Option<GraphQLActor>,
    pub comments: Option<GraphQLReviewCommentConnection>,
}

/// Connection for inline review comments.
#[derive(Debug, Clone)]
pub struct GraphQLReviewCommentConnection {
    pub nodes: Vec<GraphQLReviewComment>,
}

/// An inline review comment (file-level feedback).
#[derive(Debug, Clone)]
pub struct GraphQLReviewComment {
    pub body: Option<String>,
    pub path: Option<String>,
}

#[derive(Debug, Clone)]
pub struct GraphQLReviewConnection {
    pub page_info: GraphQLPageInfo,
    pub nodes: Vec<GraphQLReview>,
}

/// An actor (user): PR author or review author.
#[derive(Debug, Clone)]
pub struct GraphQLActor {
    pub login: String,
}

#[derive(Debug, Clone)]
pub struct GraphQLPageInfo {
    pub has_next_page: bool,
    pub end_cursor: Option<String>,
}

#[derive(Debug, Clone)]
pub struct GraphQLLabelConnection {
    pub nodes: Vec<GraphQLLabel>,
}

#[derive(Debug, Clone)]
pub struct GraphQLLabel {
    pub name: String,
}

/// Top-level data wrapper for the search query.
#[derive(Debug, Clone)]
pub struct GraphQLSearchData {
    pub search: GraphQLSearchConnection,
}

#[derive(Debug, Clone)]
pub struct GraphQLSearchConnection {
    pub page_info: GraphQLPageInfo,
    pub issue_count: Option<u32>,
    pub nodes: Vec<GraphQLSearchPr>,
}

/// A PR node from a search query. Fields are optional because search nodes
/// can be of other types, which come back as empty objects.
#[derive(Debug, Clone)]
pub struct GraphQLSearchPr {
    pub number: Option<u32>,
    pub title: Option<String>,
    pub state: Option<String>,
    pub url: Option<String>,
    pub is_draft: Option<bool>,
    pub created_at: Option<String>,
    pub updated_at: Option<String>,
    pub closed_at: Option<String>,
    pub merged_at: Option<String>,
    pub additions: Option<u32>,
    pub deletions: Option<u32>,
    pub changed_files: Option<u32>,
    pub author: Option<GraphQLActor>,
    pub body_text: Option<String>,
    pub repository: Option<GraphQLSearchRepo>,
    pub labels: Option<GraphQLLabelConnection>,
    pub head_ref_name: Option<String>,
    pub base_ref_name: Option<String>,
    pub reviews: Option<GraphQLReviewConnection>,
}

#[derive(Debug, Clone)]
pub struct GraphQLSearchRepo {
    pub name: String,
    pub owner: GraphQLSearchRepoOwner,
}

#[derive(Debug, Clone)]
pub struct GraphQLSearchRepoOwner {
    pub login: String,
}

/// A pull request as returned by the REST API.
#[derive(Debug, Clone)]
pub struct GitHubPr {
    pub number: u32,
    pub title: String,
    pub state: String,
    pub user: GitHubUser,
    pub html_url: String,
    pub created_at: String,
    pub updated_at: String,
    pub closed_at: Option<String>,
    pub merged_at: Option<String>,
    pub draft: Option<bool>,
    pub additions: Option<u32>,
    pub deletions: Option<u32>,
    pub changed_files: Option<u32>,
    pub labels: Option<Vec<GitHubLabel>>,
    pub head: Option<GitHubRef>,
    pub base: Option<GitHubRef>,
}

/// A pull request review (REST).
#[derive(Debug, Clone)]
pub struct GitHubReview {
    pub id: u64,
    pub user: GitHubUser,
    pub state: String,
    pub submitted_at: Option<String>,
    pub body: Option<String>,
}

/// A GitHub user (embedded in PR/review responses).
#[derive(Debug, Clone)]
pub struct GitHubUser {
    pub login: String,
    pub id: u64,
}

/// A GitHub label.
#[derive(Debug, Clone)]
pub struct GitHubLabel {
    pub name: String,
}

/// A Git reference (head/base branch) on a PR.
#[derive(Debug, Clone)]
pub struct GitHubRef {
    pub ref_name: String,
}

/// A repository as returned by the org repos endpoint.
#[derive(Debug, Clone)]
pub struct GitHubRepo {
    pub name: String,
    pub full_name: String,
    pub owner: GitHubRepoOwner,
    pub archived: Option<bool>,
    pub default_branch: Option<String>,
    pub language: Option<String>,
}

/// Repository owner info.
#[derive(Debug, Clone)]
pub struct GitHubRepoOwner {
    pub login: String,
}

/// A team as returned by the org teams endpoint.
#[derive(Debug, Clone)]
pub struct GitHubTeam {
    pub id: i64,
    pub slug: String,
    pub name: String,
    pub description: Option<String>,
}

/// A repository as returned by the team repos endpoint.
#[derive(Debug, Clone)]
pub struct GitHubTeamRepo {
    pub name: String,
    pub owner: GitHubRepoOwner,
    pub archived: Option<bool>,
}

} // verus!
