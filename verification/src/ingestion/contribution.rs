//! Contribution records produced by source adapters.
use vstd::prelude::*;

use crate::model::{ContributionType, Platform, Timestamp};

verus! {

/// Lifecycle state of a contribution.
#[derive(Debug, Clone)]
pub enum ContributionState {
    Open,
    Closed,
    Merged,
    /// A state recorded as the platform reports it (e.g. a review state).
    Other(String),
}

impl ContributionState {
    pub open spec fn name(self) -> Seq<char> {
        match self {
            ContributionState::Open => "open"@,
            ContributionState::Closed => "closed"@,
            ContributionState::Merged => "merged"@,
            ContributionState::Other(s) => s@,
        }
    }

    pub fn as_str(&self) -> (r: &str)
        ensures
            r@ == self.name(),
    {
        match self {
            ContributionState::Open => "open",
            ContributionState::Closed => "closed",
            ContributionState::Merged => "merged",
            ContributionState::Other(s) => s.as_str(),
        }
    }
}

/// One entry of a contribution's state history.
#[derive(Debug, Clone)]
pub struct StateChange {
    pub state: String,
    pub at: String,
}

/// Numeric facts about a pull request or review.
#[derive(Debug, Clone)]
pub struct ContributionMetrics {
    pub additions: Option<i32>,
    pub deletions: Option<i32>,
    pub changed_files: Option<i32>,
    pub review_count: Option<i32>,
    pub draft: Option<bool>,
    pub review_state: Option<String>,
}

/// Descriptive facts about a pull request or review.
#[derive(Debug, Clone)]
pub struct ContributionMetadata {
    pub repo: Option<String>,
    pub head_ref: Option<String>,
    pub base_ref: Option<String>,
    pub labels: Option<Vec<String>>,
    pub pr_number: Option<u32>,
    pub pr_platform_id: Option<String>,
}

/// Discourse topic facts.
#[derive(Debug, Clone)]
pub struct DiscourseTopicData {
    pub post_count: i32,
    pub views: i32,
    pub category: Option<String>,
    pub solved: bool,
}

/// Discourse post facts.
#[derive(Debug, Clone)]
pub struct DiscoursePostData {
    pub topic_id: i64,
    pub reply_count: i32,
    pub likes: i32,
    pub post_number: i32,
    pub reply_to_post_number: Option<i32>,
    pub is_reply: bool,
}

/// Discourse like facts.
#[derive(Debug, Clone)]
pub struct DiscourseLikeData {
    pub post_id: i64,
    pub topic_id: i64,
    pub post_number: i32,
    pub post_author: Option<String>,
}

/// Metrics of a contribution, by platform.
#[derive(Debug, Clone)]
pub enum Metrics {
    Code(ContributionMetrics),
    Topic(DiscourseTopicData),
    Post(DiscoursePostData),
    Like(DiscourseLikeData),
}

/// Metadata of a contribution, by platform.
#[derive(Debug, Clone)]
pub enum Metadata {
    Code(ContributionMetadata),
    Topic { category_id: Option<i64> },
    Post {
        topic_id: i64,
        topic_title: String,
        post_number: i32,
        username: String,
        display_name: Option<String>,
    },
    Like {
        post_author: String,
        topic_id: i64,
        topic_title: String,
        post_number: i32,
        username: String,
        display_name: Option<String>,
    },
}

/// An inline review comment kept for enrichment.
#[derive(Debug, Clone)]
pub struct InlineComment {
    pub path: String,
    pub body: String,
}

/// Content handed to the enrichment queue.
#[derive(Debug, Clone)]
pub enum EnrichmentContent {
    PullRequest {
        title: String,
        description: String,
        labels: Vec<String>,
        additions: u32,
        deletions: u32,
        changed_files: u32,
        draft: bool,
        diff: Option<String>,
    },
    Review {
        pr_title: String,
        pr_number: u32,
        state: String,
        body: String,
        inline_comments: Vec<InlineComment>,
    },
}

/// A contribution as fetched from a source, ready to be stored.
#[derive(Debug, Clone)]
pub struct ContributionInput {
    pub platform: Platform,
    pub contribution_type: ContributionType,
    pub platform_id: String,
    pub platform_username: String,
    pub title: Option<String>,
    pub url: Option<String>,
    pub state: Option<ContributionState>,
    pub created_at: Timestamp,
    pub updated_at: Option<Timestamp>,
    pub closed_at: Option<Timestamp>,
    pub metrics: Metrics,
    pub metadata: Metadata,
    pub content: Option<String>,
    pub state_history: Option<Vec<StateChange>>,
    pub enrichment_content: Option<EnrichmentContent>,
}

/// Errors of the ingestion adapters.
#[derive(Debug, Clone)]
pub enum IngestionError {
    /// A date-time string that is not RFC 3339.
    InvalidDatetime(String),
    /// A problem the adapter reports with a message.
    Internal(String),
    /// Configuration that cannot be used.
    Validation(String),
}

} // verus!
