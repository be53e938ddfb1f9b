//! Conversion of GitHub pull requests and their reviews into contribution
//! records.
use vstd::prelude::*;

use crate::github::types::{
    GraphQLActor, GraphQLLabelConnection, GraphQLPr, GraphQLReview, GraphQLReviewComment,
    GraphQLSearchPr,
};
use crate::ingestion::contribution::{
    ContributionInput, ContributionMetadata, ContributionMetrics, ContributionState,
    EnrichmentContent, IngestionError, InlineComment, Metadata, Metrics, StateChange,
};
use crate::model::{parse_rfc3339, rfc3339_instant, ContributionType, Platform, Timestamp};
use crate::discourse::client::{to_lowercase, unicode_lowercase};
use crate::text::{dec, owned, push_str, push_u64, str_eq};

verus! {

pub open spec fn opt_s(o: Option<String>) -> Option<Seq<char>> {
    match o {
        Some(s) => Some(s@),
        None => None,
    }
}

pub open spec fn str_or(o: Option<String>, default: Seq<char>) -> Seq<char> {
    match o {
        Some(s) => s@,
        None => default,
    }
}

pub open spec fn login_of(a: Option<GraphQLActor>) -> Seq<char> {
    match a {
        Some(x) => x.login@,
        None => seq![],
    }
}

pub open spec fn labels_of(l: Option<GraphQLLabelConnection>) -> Seq<Seq<char>> {
    match l {
        Some(c) => c.nodes@.map_values(|n: crate::github::types::GraphQLLabel| n.name@),
        None => seq![],
    }
}

pub open spec fn strings_view(v: Vec<String>) -> Seq<Seq<char>> {
    v@.map_values(|s: String| s@)
}

/// Default instant text for a missing date.
pub open spec fn epoch_text() -> Seq<char> {
    "1970-01-01T00:00:00Z"@
}

/// State of a searched pull request: merged when it has a merge time,
/// otherwise from its state (`"OPEN"` when absent; unknown states read as open).
pub open spec fn search_pr_state(pr: GraphQLSearchPr) -> ContributionState {
    if pr.merged_at is Some {
        ContributionState::Merged
    } else {
        let s = str_or(pr.state, "OPEN"@);
        if s == "CLOSED"@ {
            ContributionState::Closed
        } else if s == "MERGED"@ {
            ContributionState::Merged
        } else {
            ContributionState::Open
        }
    }
}

pub open spec fn same_state(a: Option<ContributionState>, b: ContributionState) -> bool {
    match a {
        Some(x) => x.name() == b.name() && (x is Other <==> b is Other),
        None => false,
    }
}

pub open spec fn pr_platform_id(owner: Seq<char>, repo: Seq<char>, number: u32) -> Seq<char> {
    owner + "/"@ + repo + "/pull/"@ + dec(number as nat)
}

pub open spec fn review_platform_id(owner: Seq<char>, repo: Seq<char>, id: u64) -> Seq<char> {
    owner + "/"@ + repo + "/review/"@ + dec(id as nat)
}

/// Inline comments with a non-empty body, as `(path, body)`.
pub open spec fn inline_comments_of(nodes: Seq<GraphQLReviewComment>) -> Seq<(Seq<char>, Seq<char>)>
    decreases nodes.len(),
{
    if nodes.len() == 0 {
        seq![]
    } else {
        let c = nodes.last();
        let body = str_or(c.body, ""@);
        inline_comments_of(nodes.drop_last()) + if body.len() == 0 {
            seq![]
        } else {
            seq![(str_or(c.path, ""@), body)]
        }
    }
}

pub open spec fn review_inline(r: GraphQLReview) -> Seq<(Seq<char>, Seq<char>)> {
    match r.comments {
        Some(c) => inline_comments_of(c.nodes@),
        None => seq![],
    }
}

pub open spec fn inline_view(v: Vec<InlineComment>) -> Seq<(Seq<char>, Seq<char>)> {
    v@.map_values(|c: InlineComment| (c.path@, c.body@))
}

/// A parsed instant.
pub open spec fn instant(s: Seq<char>, t: Timestamp) -> bool {
    rfc3339_instant(s) == Some(t as int)
}

pub open spec fn parses(s: Seq<char>) -> bool {
    rfc3339_instant(s) is Some
}

pub open spec fn opt_parses(o: Option<String>) -> bool {
    match o {
        Some(s) => parses(s@),
        None => true,
    }
}

pub open spec fn opt_instant(o: Option<String>, t: Option<Timestamp>) -> bool {
    match o {
        Some(s) => t matches Some(x) && instant(s@, x),
        None => t is None,
    }
}

/// Every date of a searched pull request and its reviews parses.
pub open spec fn search_pr_dates_parse(pr: GraphQLSearchPr) -> bool {
    &&& parses(str_or(pr.created_at, epoch_text()))
    &&& parses(str_or(pr.updated_at, epoch_text()))
    &&& opt_parses(pr.closed_at)
    &&& match pr.reviews {
        Some(rs) => forall|i: int| 0 <= i < rs.nodes@.len() ==> opt_parses((#[trigger] rs.nodes@[i]).submitted_at),
        None => true,
    }
}

/// The lines a searched pull request changes: its additions and deletions
/// (a missing count is 0). Only pull requests that change more than 50 lines
/// carry enrichment content (they alone are eligible for significance
/// enrichment).
pub open spec fn search_pr_lines_changed(pr: GraphQLSearchPr) -> int {
    (match pr.additions {
        Some(v) => v as int,
        None => 0,
    }) + (match pr.deletions {
        Some(v) => v as int,
        None => 0,
    })
}

/// The pull request record of a searched pull request.
pub open spec fn search_pr_item(
    it: ContributionInput,
    owner: Seq<char>,
    repo: Seq<char>,
    pr: GraphQLSearchPr,
) -> bool {
    let number = match pr.number {
        Some(n) => n,
        None => 0,
    };
    let title = str_or(pr.title, ""@);
    let state = search_pr_state(pr);
    let labels = labels_of(pr.labels);
    &&& it.platform == Platform::Github
    &&& it.contribution_type == ContributionType::PullRequest
    &&& it.platform_id@ == pr_platform_id(owner, repo, number)
    &&& it.platform_username@ == unicode_lowercase(login_of(pr.author))
    &&& opt_s(it.title) == Some(title)
    &&& opt_s(it.url) == Some(str_or(pr.url, ""@))
    &&& same_state(it.state, state)
    &&& instant(str_or(pr.created_at, epoch_text()), it.created_at)
    &&& it.updated_at matches Some(u) && instant(str_or(pr.updated_at, epoch_text()), u)
    &&& opt_instant(pr.closed_at, it.closed_at)
    &&& it.metrics matches Metrics::Code(m) && {
        &&& m.additions == match pr.additions {
            Some(v) => Some(v as i32),
            None => None,
        }
        &&& m.deletions == match pr.deletions {
            Some(v) => Some(v as i32),
            None => None,
        }
        &&& m.changed_files == match pr.changed_files {
            Some(v) => Some(v as i32),
            None => None,
        }
        &&& m.review_count == Some((match pr.reviews {
            Some(r) => r.nodes@.len(),
            None => 0,
        }) as i32)
        &&& m.draft == Some(match pr.is_draft {
            Some(b) => b,
            None => false,
        })
        &&& m.review_state is None
    }
    &&& it.metadata matches Metadata::Code(md) && {
        &&& opt_s(md.repo) == Some(owner + "/"@ + repo)
        &&& opt_s(md.head_ref) == opt_s(pr.head_ref_name)
        &&& opt_s(md.base_ref) == opt_s(pr.base_ref_name)
        &&& match md.labels {
            Some(l) => labels.len() > 0 && strings_view(l) == labels,
            None => labels.len() == 0,
        }
        &&& md.pr_number is None
        &&& md.pr_platform_id is None
    }
    &&& it.content is None
    &&& it.state_history matches Some(h) && {
        &&& h@.len() == if pr.closed_at is Some { 2int } else { 1int }
        &&& h@[0].state@ == "open"@ && h@[0].at@ == str_or(pr.created_at, epoch_text())
        &&& pr.closed_at matches Some(c) ==> h@[1].state@ == state.name() && h@[1].at@ == c@
    }
    &&& (it.enrichment_content is Some <==> search_pr_lines_changed(pr) > 50)
    &&& match it.enrichment_content {
        Some(EnrichmentContent::PullRequest {
            title: et,
            description,
            labels: el,
            additions,
            deletions,
            changed_files,
            draft,
            diff,
        }) => {
            &&& et@ == title
            &&& description@ == str_or(pr.body_text, ""@)
            &&& strings_view(el) == labels
            &&& additions == match pr.additions {
                Some(v) => v,
                None => 0,
            }
            &&& deletions == match pr.deletions {
                Some(v) => v,
                None => 0,
            }
            &&& changed_files == match pr.changed_files {
                Some(v) => v,
                None => 0,
            }
            &&& draft == match pr.is_draft {
                Some(b) => b,
                None => false,
            }
            &&& diff is None
        },
        Some(_) => false,
        None => true,
    }
}

/// The record of one review of a searched pull request.
pub open spec fn search_review_item(
    it: ContributionInput,
    owner: Seq<char>,
    repo: Seq<char>,
    pr: GraphQLSearchPr,
    r: GraphQLReview,
) -> bool {
    let number = match pr.number {
        Some(n) => n,
        None => 0,
    };
    let review_id = match r.database_id {
        Some(i) => i,
        None => 0,
    };
    let body = str_or(r.body, ""@);
    let inline = review_inline(r);
    &&& it.platform == Platform::Github
    &&& it.contribution_type == ContributionType::PrReview
    &&& it.platform_id@ == review_platform_id(owner, repo, review_id)
    &&& it.platform_username@ == unicode_lowercase(login_of(r.author))
    &&& opt_s(it.title) == Some("Review on #"@ + dec(number as nat))
    &&& opt_s(it.url) == Some(str_or(pr.url, ""@) + "#pullrequestreview-"@ + dec(review_id as nat))
    &&& it.state matches Some(ContributionState::Other(s)) && s@ == r.state@
    &&& match r.submitted_at {
        Some(s) => instant(s@, it.created_at) && it.updated_at == Some(it.created_at),
        None => instant(str_or(pr.created_at, epoch_text()), it.created_at) && it.updated_at is None,
    }
    &&& it.closed_at is None
    &&& it.metrics matches Metrics::Code(m) && {
        &&& m.additions is None && m.deletions is None && m.changed_files is None
        &&& m.review_count is None && m.draft is None
        &&& opt_s(m.review_state) == Some(r.state@)
    }
    &&& it.metadata matches Metadata::Code(md) && {
        &&& opt_s(md.repo) == Some(owner + "/"@ + repo)
        &&& md.head_ref is None && md.base_ref is None && md.labels is None
        &&& md.pr_number == Some(number)
        &&& opt_s(md.pr_platform_id) == Some(pr_platform_id(owner, repo, number))
    }
    &&& opt_s(it.content) == opt_s(r.body)
    &&& it.state_history is None
    &&& if body.len() > 0 || inline.len() > 0 {
        it.enrichment_content matches Some(EnrichmentContent::Review {
            pr_title,
            pr_number,
            state,
            body: b,
            inline_comments,
        }) && pr_title@ == str_or(pr.title, ""@) && pr_number == number && state@ == r.state@
            && b@ == body && inline_view(inline_comments) == inline
    } else {
        it.enrichment_content is None
    }
}

pub open spec fn reviews_of(pr: GraphQLSearchPr) -> Seq<GraphQLReview> {
    match pr.reviews {
        Some(r) => r.nodes@,
        None => seq![],
    }
}

/// The records of a searched pull request: the pull request, then one per
/// review in order.
pub open spec fn search_pr_items(
    items: Seq<ContributionInput>,
    owner: Seq<char>,
    repo: Seq<char>,
    pr: GraphQLSearchPr,
) -> bool {
    &&& items.len() == 1 + reviews_of(pr).len()
    &&& search_pr_item(items[0], owner, repo, pr)
    &&& forall|i: int|
        0 <= i < reviews_of(pr).len() ==> search_review_item(
            #[trigger] items[i + 1],
            owner,
            repo,
            pr,
            reviews_of(pr)[i],
        )
}

fn parse_datetime(s: &str) -> (r: Result<Timestamp, IngestionError>)
    ensures
        match r {
            Ok(t) => instant(s@, t),
            Err(e) => !parses(s@) && (e matches IngestionError::InvalidDatetime(x) && x@ == s@),
        },
{
    match parse_rfc3339(s) {
        Some(t) => Ok(t),
        None => Err(IngestionError::InvalidDatetime(owned(s))),
    }
}

fn opt_clone(o: &Option<String>) -> (r: Option<String>)
    ensures
        opt_s(r) == opt_s(*o),
{
    match o {
        Some(s) => Some(s.clone()),
        None => None,
    }
}

fn str_or_exec<'a>(o: &'a Option<String>, default: &'a str) -> (r: &'a str)
    ensures
        r@ == str_or(*o, default@),
{
    match o {
        Some(s) => s.as_str(),
        None => default,
    }
}

fn login(a: &Option<GraphQLActor>) -> (r: String)
    ensures
        r@ == login_of(*a),
{
    match a {
        Some(x) => x.login.clone(),
        None => String::new(),
    }
}

fn label_names(l: &Option<GraphQLLabelConnection>) -> (r: Vec<String>)
    ensures
        strings_view(r) == labels_of(*l),
{
    let mut out: Vec<String> = Vec::new();
    match l {
        Some(c) => {
            let mut i: usize = 0;
            while i < c.nodes.len()
                invariant
                    i <= c.nodes@.len(),
                    out@.len() == i,
                    forall|k: int| 0 <= k < i ==> (#[trigger] out@[k])@ == c.nodes@[k].name@,
                decreases c.nodes.len() - i,
            {
                out.push(c.nodes[i].name.clone());
                i = i + 1;
            }
            proof {
                assert(strings_view(out) =~= labels_of(*l));
            }
        },
        None => {
            proof {
                assert(strings_view(out) =~= labels_of(*l));
            }
        },
    }
    out
}

fn strings_clone(v: &Vec<String>) -> (r: Vec<String>)
    ensures
        strings_view(r) == strings_view(*v),
{
    let mut out: Vec<String> = Vec::new();
    let mut i: usize = 0;
    while i < v.len()
        invariant
            i <= v@.len(),
            out@.len() == i,
            forall|k: int| 0 <= k < i ==> (#[trigger] out@[k])@ == v@[k]@,
        decreases v.len() - i,
    {
        out.push(v[i].clone());
        i = i + 1;
    }
    proof {
        assert(strings_view(out) =~= strings_view(*v));
    }
    out
}

fn inline_comments(r: &GraphQLReview) -> (out: Vec<InlineComment>)
    ensures
        inline_view(out) == review_inline(*r),
{
    let mut out: Vec<InlineComment> = Vec::new();
    match &r.comments {
        Some(c) => {
            let mut i: usize = 0;
            while i < c.nodes.len()
                invariant
                    i <= c.nodes@.len(),
                    inline_view(out) == inline_comments_of(c.nodes@.take(i as int)),
                decreases c.nodes.len() - i,
            {
                let node = &c.nodes[i];
                let body = str_or_exec(&node.body, "");
                proof {
                    assert(c.nodes@.take(i + 1).drop_last() =~= c.nodes@.take(i as int));
                    assert(c.nodes@.take(i + 1).last() == *node);
                }
                if body.is_empty() {
                    proof {
                        assert(inline_comments_of(c.nodes@.take(i + 1)) =~= inline_comments_of(
                            c.nodes@.take(i as int),
                        ));
                    }
                } else {
                    let ghost before = inline_view(out);
                    let path = str_or_exec(&node.path, "");
                    let item = InlineComment { path: owned(path), body: owned(body) };
                    out.push(item);
                    proof {
                        assert(inline_view(out) =~= before.push((path@, body@)));
                    }
                }
                i = i + 1;
            }
            proof {
                assert(c.nodes@.take(c.nodes@.len() as int) =~= c.nodes@);
            }
        },
        None => {
            proof {
                assert(inline_view(out) =~= review_inline(*r));
            }
        },
    }
    out
}

fn opt_u32_as_i32(o: Option<u32>) -> (r: Option<i32>)
    ensures
        r == match o {
            Some(v) => Some(v as i32),
            None => None,
        },
{
    match o {
        Some(v) => Some(v as i32),
        None => None,
    }
}

/// `{owner}/{repo}`.
fn repo_key(owner: &str, repo: &str) -> (r: String)
    ensures
        r@ == owner@ + "/"@ + repo@,
{
    let mut s = owned(owner);
    push_str(&mut s, "/");
    push_str(&mut s, repo);
    s
}

fn pr_id(owner: &str, repo: &str, number: u32) -> (r: String)
    ensures
        r@ == pr_platform_id(owner@, repo@, number),
{
    let mut s = repo_key(owner, repo);
    push_str(&mut s, "/pull/");
    push_u64(&mut s, number as u64);
    s
}

/// The record of one review of a searched pull request.
fn search_review_to_contribution(
    owner: &str,
    repo: &str,
    pr: &GraphQLSearchPr,
    review: &GraphQLReview,
    pr_created_at: Timestamp,
) -> (r: Result<ContributionInput, IngestionError>)
    requires
        instant(str_or(pr.created_at, epoch_text()), pr_created_at),
    ensures
        match r {
            Ok(it) => opt_parses(review.submitted_at) && search_review_item(it, owner@, repo@, *pr, *review),
            Err(e) => !opt_parses(review.submitted_at) && (e matches IngestionError::InvalidDatetime(x)
                && (review.submitted_at matches Some(s) && x@ == s@)),
        },
{
    let number: u32 = match pr.number {
        Some(n) => n,
        None => 0,
    };
    let reviewer = to_lowercase(login(&review.author).as_str());
    let submitted_at: Option<Timestamp> = match &review.submitted_at {
        Some(s) => Some(parse_datetime(s.as_str())?),
        None => None,
    };
    let review_id: u64 = match review.database_id {
        Some(i) => i,
        None => 0,
    };
    let inline = inline_comments(review);
    let review_body = str_or_exec(&review.body, "");
    let review_enrichment = if !review_body.is_empty() || inline.len() > 0 {
        Some(EnrichmentContent::Review {
            pr_title: owned(str_or_exec(&pr.title, "")),
            pr_number: number,
            state: review.state.clone(),
            body: owned(review_body),
            inline_comments: inline,
        })
    } else {
        None
    };
    let mut platform_id = repo_key(owner, repo);
    push_str(&mut platform_id, "/review/");
    push_u64(&mut platform_id, review_id);
    let mut title = owned("Review on #");
    push_u64(&mut title, number as u64);
    let mut url = owned(str_or_exec(&pr.url, ""));
    push_str(&mut url, "#pullrequestreview-");
    push_u64(&mut url, review_id);
    let created_at = match submitted_at {
        Some(t) => t,
        None => pr_created_at,
    };
    let it = ContributionInput {
        platform: Platform::Github,
        contribution_type: ContributionType::PrReview,
        platform_id,
        platform_username: reviewer,
        title: Some(title),
        url: Some(url),
        state: Some(ContributionState::Other(review.state.clone())),
        created_at,
        updated_at: submitted_at,
        closed_at: None,
        metrics: Metrics::Code(
            ContributionMetrics {
                additions: None,
                deletions: None,
                changed_files: None,
                review_count: None,
                draft: None,
                review_state: Some(review.state.clone()),
            },
        ),
        metadata: Metadata::Code(
            ContributionMetadata {
                repo: Some(repo_key(owner, repo)),
                head_ref: None,
                base_ref: None,
                labels: None,
                pr_number: Some(number),
                pr_platform_id: Some(pr_id(owner, repo, number)),
            },
        ),
        content: opt_clone(&review.body),
        state_history: None,
        enrichment_content: review_enrichment,
    };
    Ok(it)
}

/// Converts a pull request found by a search query into contribution
/// records: the pull request itself, then one per review. Usernames are
/// stored lowercased; only a pull request that changes more than 50 lines
/// carries enrichment content; a review links to its anchor on the pull
/// request's page.
pub fn search_pr_to_contributions(owner: &str, repo: &str, pr: &GraphQLSearchPr) -> (r: Result<
    Vec<ContributionInput>,
    IngestionError,
>)
    ensures
        r is Ok <==> search_pr_dates_parse(*pr),
        r matches Ok(items) ==> search_pr_items(items@, owner@, repo@, *pr),
        r matches Err(e) ==> e is InvalidDatetime,
{
    let number: u32 = match pr.number {
        Some(n) => n,
        None => 0,
    };
    let title = owned(str_or_exec(&pr.title, ""));
    let url = owned(str_or_exec(&pr.url, ""));
    let created_at_str = str_or_exec(&pr.created_at, "1970-01-01T00:00:00Z");
    let updated_at_str = str_or_exec(&pr.updated_at, "1970-01-01T00:00:00Z");
    let author = to_lowercase(login(&pr.author).as_str());
    let pr_state = if pr.merged_at.is_some() {
        ContributionState::Merged
    } else {
        let st = str_or_exec(&pr.state, "OPEN");
        if str_eq(st, "CLOSED") {
            ContributionState::Closed
        } else if str_eq(st, "MERGED") {
            ContributionState::Merged
        } else {
            ContributionState::Open
        }
    };
    let mut state_history: Vec<StateChange> = Vec::new();
    state_history.push(StateChange { state: owned("open"), at: owned(created_at_str) });
    match &pr.closed_at {
        Some(closed_at) => {
            state_history.push(
                StateChange { state: owned(pr_state.as_str()), at: closed_at.clone() },
            );
        },
        None => {},
    }
    let review_count: usize = match &pr.reviews {
        Some(r) => r.nodes.len(),
        None => 0,
    };
    let labels = label_names(&pr.labels);
    let created_at = parse_datetime(created_at_str)?;
    let updated_at = parse_datetime(updated_at_str)?;
    let closed_at: Option<Timestamp> = match &pr.closed_at {
        Some(s) => Some(parse_datetime(s.as_str())?),
        None => None,
    };
    let lines_changed: u64 = (match pr.additions {
        Some(v) => v,
        None => 0,
    }) as u64 + (match pr.deletions {
        Some(v) => v,
        None => 0,
    }) as u64;
    let pr_enrichment = EnrichmentContent::PullRequest {
        title: title.clone(),
        description: owned(str_or_exec(&pr.body_text, "")),
        labels: strings_clone(&labels),
        additions: match pr.additions {
            Some(v) => v,
            None => 0,
        },
        deletions: match pr.deletions {
            Some(v) => v,
            None => 0,
        },
        changed_files: match pr.changed_files {
            Some(v) => v,
            None => 0,
        },
        draft: match pr.is_draft {
            Some(b) => b,
            None => false,
        },
        diff: None,
    };
    let meta_labels = if labels.len() == 0 {
        None
    } else {
        Some(labels)
    };
    let pr_item = ContributionInput {
        platform: Platform::Github,
        contribution_type: ContributionType::PullRequest,
        platform_id: pr_id(owner, repo, number),
        platform_username: author,
        title: Some(title),
        url: Some(url),
        state: Some(pr_state),
        created_at,
        updated_at: Some(updated_at),
        closed_at,
        metrics: Metrics::Code(
            ContributionMetrics {
                additions: opt_u32_as_i32(pr.additions),
                deletions: opt_u32_as_i32(pr.deletions),
                changed_files: opt_u32_as_i32(pr.changed_files),
                review_count: Some(review_count as i32),
                draft: Some(
                    match pr.is_draft {
                        Some(b) => b,
                        None => false,
                    },
                ),
                review_state: None,
            },
        ),
        metadata: Metadata::Code(
            ContributionMetadata {
                repo: Some(repo_key(owner, repo)),
                head_ref: opt_clone(&pr.head_ref_name),
                base_ref: opt_clone(&pr.base_ref_name),
                labels: meta_labels,
                pr_number: None,
                pr_platform_id: None,
            },
        ),
        content: None,
        state_history: Some(state_history),
        enrichment_content: if lines_changed > 50 {
            Some(pr_enrichment)
        } else {
            None
        },
    };
    let mut items: Vec<ContributionInput> = Vec::new();
    items.push(pr_item);
    let ghost reviews = reviews_of(*pr);
    match &pr.reviews {
        Some(rs) => {
            let mut i: usize = 0;
            while i < rs.nodes.len()
                invariant
                    i <= rs.nodes@.len(),
                    reviews == rs.nodes@,
                    reviews == reviews_of(*pr),
                    instant(str_or(pr.created_at, epoch_text()), created_at),
                    items@.len() == 1 + i,
                    search_pr_item(items@[0], owner@, repo@, *pr),
                    forall|k: int| 0 <= k < i ==> opt_parses((#[trigger] reviews[k]).submitted_at),
                    forall|k: int|
                        0 <= k < i ==> search_review_item(
                            #[trigger] items@[k + 1],
                            owner@,
                            repo@,
                            *pr,
                            reviews[k],
                        ),
                decreases rs.nodes.len() - i,
            {
                let it = search_review_to_contribution(owner, repo, pr, &rs.nodes[i], created_at)?;
                items.push(it);
                i = i + 1;
            }
        },
        None => {},
    }
    Ok(items)
}

// ---------------------------------------------------------------------------
// Pull requests listed per repository
// ---------------------------------------------------------------------------

/// State of a listed pull request: merged when it has a merge time,
/// otherwise from its state, kept as reported when it is none of `OPEN`,
/// `CLOSED` and `MERGED`.
pub open spec fn graphql_pr_state(pr: GraphQLPr) -> ContributionState {
    if pr.merged_at is Some {
        ContributionState::Merged
    } else if pr.state@ == "OPEN"@ {
        ContributionState::Open
    } else if pr.state@ == "CLOSED"@ {
        ContributionState::Closed
    } else if pr.state@ == "MERGED"@ {
        ContributionState::Merged
    } else {
        ContributionState::Other(pr.state)
    }
}

/// Every date of a listed pull request and its reviews parses.
pub open spec fn graphql_pr_dates_parse(pr: GraphQLPr) -> bool {
    &&& parses(pr.created_at@)
    &&& parses(pr.updated_at@)
    &&& opt_parses(pr.closed_at)
    &&& forall|i: int|
        0 <= i < pr.reviews.nodes@.len() ==> opt_parses((#[trigger] pr.reviews.nodes@[i]).submitted_at)
}

/// The pull request record of a listed pull request by `author`.
pub open spec fn graphql_pr_item(
    it: ContributionInput,
    owner: Seq<char>,
    repo: Seq<char>,
    pr: GraphQLPr,
    author: Seq<char>,
) -> bool {
    let state = graphql_pr_state(pr);
    &&& it.platform == Platform::Github
    &&& it.contribution_type == ContributionType::PullRequest
    &&& it.platform_id@ == pr_platform_id(owner, repo, pr.number)
    &&& it.platform_username@ == author
    &&& opt_s(it.title) == Some(pr.title@)
    &&& opt_s(it.url) == Some(pr.url@)
    &&& same_state(it.state, state)
    &&& instant(pr.created_at@, it.created_at)
    &&& it.updated_at matches Some(u) && instant(pr.updated_at@, u)
    &&& opt_instant(pr.closed_at, it.closed_at)
    &&& it.metrics matches Metrics::Code(m) && {
        &&& m.additions == match pr.additions {
            Some(v) => Some(v as i32),
            None => None,
        }
        &&& m.deletions == match pr.deletions {
            Some(v) => Some(v as i32),
            None => None,
        }
        &&& m.changed_files == match pr.changed_files {
            Some(v) => Some(v as i32),
            None => None,
        }
        &&& m.review_count == Some(pr.reviews.nodes@.len() as i32)
        &&& m.draft == Some(pr.is_draft)
        &&& m.review_state is None
    }
    &&& it.metadata matches Metadata::Code(md) && {
        &&& md.repo is None
        &&& opt_s(md.head_ref) == opt_s(pr.head_ref_name)
        &&& opt_s(md.base_ref) == opt_s(pr.base_ref_name)
        &&& md.labels matches Some(l) && strings_view(l) == labels_of(pr.labels)
        &&& md.pr_number is None
        &&& md.pr_platform_id is None
    }
    &&& it.content is None
    &&& it.state_history matches Some(h) && {
        &&& h@.len() == if pr.closed_at is Some { 2int } else { 1int }
        &&& h@[0].state@ == "open"@ && h@[0].at@ == pr.created_at@
        &&& pr.closed_at matches Some(c) ==> h@[1].state@ == state.name() && h@[1].at@ == c@
    }
    &&& it.enrichment_content is None
}

/// The record of one review of a listed pull request.
pub open spec fn graphql_review_item(
    it: ContributionInput,
    owner: Seq<char>,
    repo: Seq<char>,
    pr: GraphQLPr,
    r: GraphQLReview,
) -> bool {
    let review_id = match r.database_id {
        Some(i) => i,
        None => 0,
    };
    &&& it.platform == Platform::Github
    &&& it.contribution_type == ContributionType::PrReview
    &&& it.platform_id@ == review_platform_id(owner, repo, review_id)
    &&& it.platform_username@ == login_of(r.author)
    &&& opt_s(it.title) == Some("Review on #"@ + dec(pr.number as nat))
    &&& opt_s(it.url) == Some(pr.url@ + "/reviews/"@ + dec(review_id as nat))
    &&& it.state matches Some(ContributionState::Other(s)) && s@ == r.state@
    &&& match r.submitted_at {
        Some(s) => instant(s@, it.created_at) && it.updated_at == Some(it.created_at),
        None => instant(pr.created_at@, it.created_at) && it.updated_at is None,
    }
    &&& it.closed_at is None
    &&& it.metrics matches Metrics::Code(m) && {
        &&& m.additions is None && m.deletions is None && m.changed_files is None
        &&& m.review_count is None && m.draft is None
        &&& opt_s(m.review_state) == Some(r.state@)
    }
    &&& it.metadata matches Metadata::Code(md) && {
        &&& md.repo is None
        &&& md.head_ref is None && md.base_ref is None && md.labels is None
        &&& md.pr_number == Some(pr.number)
        &&& opt_s(md.pr_platform_id) == Some(pr_platform_id(owner, repo, pr.number))
    }
    &&& opt_s(it.content) == opt_s(r.body)
    &&& it.state_history is None
    &&& it.enrichment_content is None
}

/// The records of a listed pull request: the pull request, then one per
/// review in order.
pub open spec fn graphql_pr_items(
    items: Seq<ContributionInput>,
    owner: Seq<char>,
    repo: Seq<char>,
    pr: GraphQLPr,
    author: Seq<char>,
) -> bool {
    &&& items.len() == 1 + pr.reviews.nodes@.len()
    &&& graphql_pr_item(items[0], owner, repo, pr, author)
    &&& forall|i: int|
        0 <= i < pr.reviews.nodes@.len() ==> graphql_review_item(
            #[trigger] items[i + 1],
            owner,
            repo,
            pr,
            pr.reviews.nodes@[i],
        )
}

/// The record of one review of a listed pull request.
fn graphql_review_to_contribution(
    owner: &str,
    repo: &str,
    pr: &GraphQLPr,
    review: &GraphQLReview,
    pr_created_at: Timestamp,
) -> (r: Result<ContributionInput, IngestionError>)
    requires
        instant(pr.created_at@, pr_created_at),
    ensures
        match r {
            Ok(it) => opt_parses(review.submitted_at) && graphql_review_item(it, owner@, repo@, *pr, *review),
            Err(e) => !opt_parses(review.submitted_at) && (e matches IngestionError::InvalidDatetime(x)
                && (review.submitted_at matches Some(s) && x@ == s@)),
        },
{
    let reviewer = login(&review.author);
    let submitted_at: Option<Timestamp> = match &review.submitted_at {
        Some(s) => Some(parse_datetime(s.as_str())?),
        None => None,
    };
    let review_id: u64 = match review.database_id {
        Some(i) => i,
        None => 0,
    };
    let mut platform_id = repo_key(owner, repo);
    push_str(&mut platform_id, "/review/");
    push_u64(&mut platform_id, review_id);
    let mut title = owned("Review on #");
    push_u64(&mut title, pr.number as u64);
    let mut url = pr.url.clone();
    push_str(&mut url, "/reviews/");
    push_u64(&mut url, review_id);
    let created_at = match submitted_at {
        Some(t) => t,
        None => pr_created_at,
    };
    Ok(
        ContributionInput {
            platform: Platform::Github,
            contribution_type: ContributionType::PrReview,
            platform_id,
            platform_username: reviewer,
            title: Some(title),
            url: Some(url),
            state: Some(ContributionState::Other(review.state.clone())),
            created_at,
            updated_at: submitted_at,
            closed_at: None,
            metrics: Metrics::Code(
                ContributionMetrics {
                    additions: None,
                    deletions: None,
                    changed_files: None,
                    review_count: None,
                    draft: None,
                    review_state: Some(review.state.clone()),
                },
            ),
            metadata: Metadata::Code(
                ContributionMetadata {
                    repo: None,
                    head_ref: None,
                    base_ref: None,
                    labels: None,
                    pr_number: Some(pr.number),
                    pr_platform_id: Some(pr_id(owner, repo, pr.number)),
                },
            ),
            content: opt_clone(&review.body),
            state_history: None,
            enrichment_content: None,
        },
    )
}

/// Converts a pull request listed for a repository, written by `author`,
/// into contribution records: the pull request itself, then one per review.
pub fn graphql_pr_to_contributions(owner: &str, repo: &str, pr: &GraphQLPr, author: &str) -> (r:
    Result<Vec<ContributionInput>, IngestionError>)
    ensures
        r is Ok <==> graphql_pr_dates_parse(*pr),
        r matches Ok(items) ==> graphql_pr_items(items@, owner@, repo@, *pr, author@),
        r matches Err(e) ==> e is InvalidDatetime,
{
    let pr_state = if pr.merged_at.is_some() {
        ContributionState::Merged
    } else if str_eq(pr.state.as_str(), "OPEN") {
        ContributionState::Open
    } else if str_eq(pr.state.as_str(), "CLOSED") {
        ContributionState::Closed
    } else if str_eq(pr.state.as_str(), "MERGED") {
        ContributionState::Merged
    } else {
        ContributionState::Other(pr.state.clone())
    };
    let mut state_history: Vec<StateChange> = Vec::new();
    state_history.push(StateChange { state: owned("open"), at: pr.created_at.clone() });
    match &pr.closed_at {
        Some(closed_at) => {
            state_history.push(
                StateChange { state: owned(pr_state.as_str()), at: closed_at.clone() },
            );
        },
        None => {},
    }
    let review_count: usize = pr.reviews.nodes.len();
    let labels = label_names(&pr.labels);
    let created_at = parse_datetime(pr.created_at.as_str())?;
    let updated_at = parse_datetime(pr.updated_at.as_str())?;
    let closed_at: Option<Timestamp> = match &pr.closed_at {
        Some(s) => Some(parse_datetime(s.as_str())?),
        None => None,
    };
    let pr_item = ContributionInput {
        platform: Platform::Github,
        contribution_type: ContributionType::PullRequest,
        platform_id: pr_id(owner, repo, pr.number),
        platform_username: owned(author),
        title: Some(pr.title.clone()),
        url: Some(pr.url.clone()),
        state: Some(pr_state),
        created_at,
        updated_at: Some(updated_at),
        closed_at,
        metrics: Metrics::Code(
            ContributionMetrics {
                additions: opt_u32_as_i32(pr.additions),
                deletions: opt_u32_as_i32(pr.deletions),
                changed_files: opt_u32_as_i32(pr.changed_files),
                review_count: Some(review_count as i32),
                draft: Some(pr.is_draft),
                review_state: None,
            },
        ),
        metadata: Metadata::Code(
            ContributionMetadata {
                repo: None,
                head_ref: opt_clone(&pr.head_ref_name),
                base_ref: opt_clone(&pr.base_ref_name),
                labels: Some(labels),
                pr_number: None,
                pr_platform_id: None,
            },
        ),
        content: None,
        state_history: Some(state_history),
        enrichment_content: None,
    };
    let mut items: Vec<ContributionInput> = Vec::new();
    items.push(pr_item);
    let ghost reviews = pr.reviews.nodes@;
    let mut i: usize = 0;
    while i < pr.reviews.nodes.len()
        invariant
            i <= reviews.len(),
            reviews == pr.reviews.nodes@,
            instant(pr.created_at@, created_at),
            items@.len() == 1 + i,
            graphql_pr_item(items@[0], owner@, repo@, *pr, author@),
            forall|k: int| 0 <= k < i ==> opt_parses((#[trigger] reviews[k]).submitted_at),
            forall|k: int|
                0 <= k < i ==> graphql_review_item(#[trigger] items@[k + 1], owner@, repo@, *pr, reviews[k]),
        decreases reviews.len() - i,
    {
        let it = graphql_review_to_contribution(owner, repo, pr, &pr.reviews.nodes[i], created_at)?;
        items.push(it);
        i = i + 1;
    }
    Ok(items)
}

} // verus!
