//! The GitHub source adapter's decisions: the two-phase cursor (team
//! repositories, then a search for the members' pull requests elsewhere),
//! the search queries, and how each fetched page moves the cursor.
use vstd::prelude::*;

use crate::github::contributions::{search_pr_items, search_pr_to_contributions, search_pr_dates_parse};
use crate::seqs::{lemma_filter_prefix, lemma_filter_push};
use crate::github::graphql::{join_spec, join_strings, GraphQLClientError};
use crate::github::types::GraphQLSearchPr;
use crate::ingestion::contribution::{ContributionInput, IngestionError};
use crate::model::{in_instant_range, now_utc, FailedItem, RateLimitInfo, RepoTarget, Timestamp, NANOS_PER_SECOND};
use crate::text::{
    ascii_alnum, chars_eq, contains_chars, contains_seq, is_ascii_alnum, lex_lt, owned, push_str,
    str_eq, str_lt, to_chars,
};

verus! {

/// Default lookback window (days) when no watermark exists.
pub const DEFAULT_LOOKBACK_DAYS: i64 = 7;

/// Rate limit threshold below which the member search phase is skipped.
pub const RATE_LIMIT_SEARCH_THRESHOLD: i32 = 200;

/// Number of usernames batched into one search query (`author:` terms
/// combine with OR semantics).
pub const SEARCH_BATCH_SIZE: usize = 5;

/// A username made of ASCII letters, digits and hyphens, and not empty.
pub open spec fn valid_username(s: Seq<char>) -> bool {
    s.len() > 0 && forall|i: int| 0 <= i < s.len() ==> (is_ascii_alnum(#[trigger] s[i]) || s[i] == '-')
}

/// Checks that a GitHub username has the expected form, rejecting anything
/// that could inject terms into a search query.
pub fn is_valid_github_username(username: &str) -> (r: bool)
    ensures
        r == valid_username(username@),
{
    let v = to_chars(username);
    let mut ok = v.len() > 0;
    let mut i: usize = 0;
    while i < v.len()
        invariant
            i <= v@.len(),
            v@ == username@,
            ok == (v@.len() > 0 && forall|k: int|
                0 <= k < i ==> (is_ascii_alnum(#[trigger] v@[k]) || v@[k] == '-')),
        decreases v.len() - i,
    {
        if !(ascii_alnum(v[i]) || v[i] == '-') {
            ok = false;
        }
        i = i + 1;
    }
    ok
}

/// Which phase of ingestion the cursor is in.
#[derive(Debug, Clone, Copy, PartialEq, Eq, Structural)]
pub enum IngestionPhase {
    /// Iterate team-mapped (or discovered) repos, fetching PRs and reviews.
    TeamRepos,
    /// Search for the team members' pull requests in other repos.
    MemberSearch,
}

/// Position within a multi-phase GitHub ingestion run.
#[derive(Debug, Clone)]
pub struct Cursor {
    pub phase: IngestionPhase,
    pub repo_index: usize,
    /// GraphQL cursor for pagination within a repo.
    pub graphql_cursor: Option<String>,
    pub watermark: Option<String>,
    /// Repos to ingest, fixed for the run.
    pub repos: Vec<RepoTarget>,
    /// Latest `updated_at` seen across all items.
    pub max_updated_at: Option<String>,
    /// Configured org names (search query terms).
    pub orgs: Vec<String>,
    /// Index into `search_users` of the current batch.
    pub search_user_index: usize,
    pub search_graphql_cursor: Option<String>,
    pub search_users: Vec<String>,
    /// `"owner/repo"` keys ingested in the team phase, as a set: no key
    /// occurs twice. Kept in a `Vec`, whose contract speaks of its text
    /// keys, where a hash set of `String` gives no provable membership.
    pub ingested_repos: Vec<String>,
    pub last_rate_limit_remaining: Option<i32>,
    pub failed_items: Vec<FailedItem>,
}

pub open spec fn opt_view(o: Option<String>) -> Option<Seq<char>> {
    match o {
        Some(s) => Some(s@),
        None => None,
    }
}

pub open spec fn keys_view(v: Seq<String>) -> Seq<Seq<char>> {
    v.map_values(|s: String| s@)
}

/// The GitHub source adapter: pull requests and reviews of team
/// repositories, then cross-repository contributions of team members.
pub struct GitHubSource;

impl GitHubSource {
    /// The source's name.
    pub fn name(&self) -> (r: &'static str)
        ensures
            r@ == "github"@,
    {
        "github"
    }
}

/// The first cursor of a run: team phase, first repo, watermark as the
/// starting maximum.
pub fn initial_cursor(watermark: Option<String>, repos: Vec<RepoTarget>) -> (r: Cursor)
    ensures
        r.phase == IngestionPhase::TeamRepos,
        r.repo_index == 0,
        r.graphql_cursor is None,
        opt_view(r.watermark) == opt_view(watermark),
        r.repos@ == repos@,
        opt_view(r.max_updated_at) == opt_view(watermark),
        r.orgs@.len() == 0,
        r.search_user_index == 0,
        r.search_graphql_cursor is None,
        r.search_users@.len() == 0,
        r.ingested_repos@.len() == 0,
        r.last_rate_limit_remaining is None,
        r.failed_items@.len() == 0,
{
    let max_updated_at = match &watermark {
        Some(w) => Some(w.clone()),
        None => None,
    };
    Cursor {
        phase: IngestionPhase::TeamRepos,
        repo_index: 0,
        graphql_cursor: None,
        watermark,
        repos,
        max_updated_at,
        orgs: Vec::new(),
        search_user_index: 0,
        search_graphql_cursor: None,
        search_users: Vec::new(),
        ingested_repos: Vec::new(),
        last_rate_limit_remaining: None,
        failed_items: Vec::new(),
    }
}

// ---------------------------------------------------------------------------
// Search queries
// ---------------------------------------------------------------------------

/// ` updated:>{w}` for a watermark that is set and not empty.
pub open spec fn updated_term(watermark: Option<Seq<char>>) -> Seq<char> {
    match watermark {
        Some(w) => if w.len() > 0 {
            " updated:>"@ + w
        } else {
            seq![]
        },
        None => seq![],
    }
}

fn push_updated_term(q: &mut String, watermark: &Option<String>)
    ensures
        final(q)@ == old(q)@ + updated_term(opt_view(*watermark)),
{
    match watermark {
        Some(w) => {
            if !w.as_str().is_empty() {
                push_str(q, " updated:>");
                push_str(q, w.as_str());
            } else {
                proof {
                    assert(old(q)@ + updated_term(opt_view(*watermark)) =~= old(q)@);
                }
            }
        },
        None => {
            proof {
                assert(old(q)@ + updated_term(opt_view(*watermark)) =~= old(q)@);
            }
        },
    }
}

/// `repo:{owner}/{repo} type:pr`, filtered server-side by the watermark.
pub open spec fn team_repo_query_of(owner: Seq<char>, repo: Seq<char>, watermark: Option<Seq<char>>) -> Seq<char> {
    "repo:"@ + owner + "/"@ + repo + " type:pr"@ + updated_term(watermark)
}

pub fn team_repo_query(owner: &str, repo: &str, watermark: &Option<String>) -> (r: String)
    ensures
        r@ == team_repo_query_of(owner@, repo@, opt_view(*watermark)),
{
    let mut q = owned("repo:");
    push_str(&mut q, owner);
    push_str(&mut q, "/");
    push_str(&mut q, repo);
    push_str(&mut q, " type:pr");
    push_updated_term(&mut q, watermark);
    proof {
        assert(q@ =~= team_repo_query_of(owner@, repo@, opt_view(*watermark)));
    }
    q
}

/// ` author:{u}` for every valid username.
pub open spec fn author_terms(users: Seq<Seq<char>>) -> Seq<char>
    decreases users.len(),
{
    if users.len() == 0 {
        seq![]
    } else {
        author_terms(users.drop_last()) + if valid_username(users.last()) {
            " author:"@ + users.last()
        } else {
            seq![]
        }
    }
}

/// ` org:{o}` for every org.
pub open spec fn org_terms(orgs: Seq<Seq<char>>) -> Seq<char>
    decreases orgs.len(),
{
    if orgs.len() == 0 {
        seq![]
    } else {
        org_terms(orgs.drop_last()) + " org:"@ + orgs.last()
    }
}

/// Search query for a batch of members: pull requests authored by any of
/// them (invalid usernames are left out), within the orgs, updated after
/// the watermark.
pub open spec fn member_query_of(
    users: Seq<Seq<char>>,
    orgs: Seq<Seq<char>>,
    watermark: Option<Seq<char>>,
) -> Seq<char> {
    "type:pr"@ + author_terms(users) + org_terms(orgs) + updated_term(watermark)
}

/// Builds the member search query for `users[lo..hi]`.
pub fn member_search_query(
    users: &Vec<String>,
    lo: usize,
    hi: usize,
    orgs: &Vec<String>,
    watermark: &Option<String>,
) -> (r: String)
    requires
        lo <= hi <= users@.len(),
    ensures
        r@ == member_query_of(
            keys_view(users@.subrange(lo as int, hi as int)),
            keys_view(orgs@),
            opt_view(*watermark),
        ),
{
    let ghost us = keys_view(users@.subrange(lo as int, hi as int));
    let mut q = owned("type:pr");
    let mut i = lo;
    while i < hi
        invariant
            lo <= i <= hi <= users@.len(),
            us == keys_view(users@.subrange(lo as int, hi as int)),
            q@ == "type:pr"@ + author_terms(us.take(i - lo)),
        decreases hi - i,
    {
        proof {
            assert(us.take(i - lo + 1).drop_last() =~= us.take(i - lo));
            assert(us.take(i - lo + 1).last() == users@[i as int]@);
        }
        if is_valid_github_username(users[i].as_str()) {
            push_str(&mut q, " author:");
            push_str(&mut q, users[i].as_str());
            proof {
                assert(q@ =~= "type:pr"@ + author_terms(us.take(i - lo + 1)));
            }
        } else {
            proof {
                assert(author_terms(us.take(i - lo + 1)) =~= author_terms(us.take(i - lo)));
            }
        }
        i = i + 1;
    }
    proof {
        assert(us.take(hi - lo) =~= us);
    }
    let ghost os = keys_view(orgs@);
    let ghost with_authors = q@;
    let mut j: usize = 0;
    while j < orgs.len()
        invariant
            j <= orgs@.len(),
            os == keys_view(orgs@),
            q@ == with_authors + org_terms(os.take(j as int)),
        decreases orgs.len() - j,
    {
        proof {
            assert(os.take(j + 1).drop_last() =~= os.take(j as int));
        }
        push_str(&mut q, " org:");
        push_str(&mut q, orgs[j].as_str());
        proof {
            assert(q@ =~= with_authors + org_terms(os.take(j + 1)));
        }
        j = j + 1;
    }
    proof {
        assert(os.take(orgs@.len() as int) =~= os);
    }
    push_updated_term(&mut q, watermark);
    proof {
        assert(q@ =~= member_query_of(us, os, opt_view(*watermark)));
    }
    q
}

/// End of the member batch that starts at `index`.
pub open spec fn batch_end_of(index: int, total: int) -> int {
    if index + SEARCH_BATCH_SIZE < total {
        index + SEARCH_BATCH_SIZE
    } else {
        total
    }
}

// ---------------------------------------------------------------------------
// Fetch planning
// ---------------------------------------------------------------------------

/// What the next fetch has to do.
#[derive(Debug, Clone)]
pub enum FetchPlan {
    /// Nothing left: the fetch returns no items and no next cursor.
    Finished,
    /// The team repos are exhausted and the rate limit allows a search: the
    /// caller loads the members' usernames and the orgs, then calls
    /// [`begin_member_search`].
    LoadSearchUsers,
    /// Search one team repo for updated pull requests.
    SearchTeamRepo { owner: String, repo: String, query: String, after: Option<String> },
    /// Search the pull requests of `search_users[index..batch_end]`.
    SearchMembers { query: String, after: Option<String>, batch_end: usize },
}

/// The plan of the next fetch for a cursor.
pub open spec fn plan_is(cur: Cursor, p: FetchPlan) -> bool {
    match cur.phase {
        IngestionPhase::TeamRepos => if cur.repo_index < cur.repos@.len() {
            let t = cur.repos@[cur.repo_index as int];
            p matches FetchPlan::SearchTeamRepo { owner, repo, query, after } && owner@ == t.owner@
                && repo@ == t.repo@ && query@ == team_repo_query_of(t.owner@, t.repo@, opt_view(cur.watermark))
                && opt_view(after) == opt_view(cur.graphql_cursor)
        } else if cur.last_rate_limit_remaining matches Some(r) && r < RATE_LIMIT_SEARCH_THRESHOLD {
            p is Finished
        } else {
            p is LoadSearchUsers
        },
        IngestionPhase::MemberSearch => if cur.search_user_index >= cur.search_users@.len() {
            p is Finished
        } else {
            let end = batch_end_of(cur.search_user_index as int, cur.search_users@.len() as int);
            p matches FetchPlan::SearchMembers { query, after, batch_end } && batch_end == end
                && query@ == member_query_of(
                keys_view(cur.search_users@.subrange(cur.search_user_index as int, end)),
                keys_view(cur.orgs@),
                opt_view(cur.watermark),
            ) && opt_view(after) == opt_view(cur.search_graphql_cursor)
        },
    }
}

fn clone_opt(o: &Option<String>) -> (r: Option<String>)
    ensures
        opt_view(r) == opt_view(*o),
{
    match o {
        Some(s) => Some(s.clone()),
        None => None,
    }
}

/// Decides what the next fetch does.
pub fn plan_fetch(cur: &Cursor) -> (r: FetchPlan)
    ensures
        plan_is(*cur, r),
{
    match cur.phase {
        IngestionPhase::TeamRepos => {
            if cur.repo_index < cur.repos.len() {
                let t = &cur.repos[cur.repo_index];
                FetchPlan::SearchTeamRepo {
                    owner: t.owner.clone(),
                    repo: t.repo.clone(),
                    query: team_repo_query(t.owner.as_str(), t.repo.as_str(), &cur.watermark),
                    after: clone_opt(&cur.graphql_cursor),
                }
            } else {
                match cur.last_rate_limit_remaining {
                    Some(r) => if r < RATE_LIMIT_SEARCH_THRESHOLD {
                        FetchPlan::Finished
                    } else {
                        FetchPlan::LoadSearchUsers
                    },
                    None => FetchPlan::LoadSearchUsers,
                }
            }
        },
        IngestionPhase::MemberSearch => {
            if cur.search_user_index >= cur.search_users.len() {
                FetchPlan::Finished
            } else {
                let left = cur.search_users.len() - cur.search_user_index;
                let end = if left > SEARCH_BATCH_SIZE {
                    cur.search_user_index + SEARCH_BATCH_SIZE
                } else {
                    cur.search_users.len()
                };
                FetchPlan::SearchMembers {
                    query: member_search_query(
                        &cur.search_users,
                        cur.search_user_index,
                        end,
                        &cur.orgs,
                        &cur.watermark,
                    ),
                    after: clone_opt(&cur.search_graphql_cursor),
                    batch_end: end,
                }
            }
        },
    }
}

/// Moves the cursor into the member search phase with the loaded usernames
/// and orgs, then plans the first search; with no usernames there is
/// nothing to search and the run is finished.
pub fn begin_member_search(cur: &mut Cursor, usernames: Vec<String>, orgs: Vec<String>) -> (r:
    FetchPlan)
    ensures
        usernames@.len() == 0 ==> r is Finished && *final(cur) == *old(cur),
        usernames@.len() > 0 ==> {
            &&& final(cur).phase == IngestionPhase::MemberSearch
            &&& final(cur).search_users@ == usernames@
            &&& final(cur).search_user_index == 0
            &&& final(cur).search_graphql_cursor is None
            &&& final(cur).orgs@ == orgs@
            &&& final(cur).repo_index == old(cur).repo_index
            &&& final(cur).repos@ == old(cur).repos@
            &&& opt_view(final(cur).max_updated_at) == opt_view(old(cur).max_updated_at)
            &&& final(cur).ingested_repos@ == old(cur).ingested_repos@
            &&& final(cur).watermark == old(cur).watermark
            &&& final(cur).graphql_cursor == old(cur).graphql_cursor
            &&& final(cur).last_rate_limit_remaining == old(cur).last_rate_limit_remaining
            &&& final(cur).failed_items@ == old(cur).failed_items@
            &&& plan_is(*final(cur), r)
        },
{
    if usernames.len() == 0 {
        return FetchPlan::Finished;
    }
    cur.phase = IngestionPhase::MemberSearch;
    cur.search_users = usernames;
    cur.search_user_index = 0;
    cur.search_graphql_cursor = None;
    cur.orgs = orgs;
    plan_fetch(cur)
}

// ---------------------------------------------------------------------------
// Absorbing a fetched page
// ---------------------------------------------------------------------------

/// A page of search results.
#[derive(Debug, Clone)]
pub struct SearchPage {
    pub items: Vec<GraphQLSearchPr>,
    pub has_next_page: bool,
    pub end_cursor: Option<String>,
    pub rate_limit: RateLimitInfo,
}

/// The maximum `updated_at` after seeing `t`: `t` replaces the current
/// maximum when there is none or `t` is later.
pub open spec fn track_max(max: Option<Seq<char>>, t: Seq<char>) -> Option<Seq<char>> {
    match max {
        Some(m) => if lex_lt(m, t) {
            Some(t)
        } else {
            Some(m)
        },
        None => Some(t),
    }
}

pub open spec fn track_opt(max: Option<Seq<char>>, t: Option<String>) -> Option<Seq<char>> {
    match t {
        Some(s) => track_max(max, s@),
        None => max,
    }
}

/// `"owner/repo"` key of a searched pull request's repository.
pub open spec fn pr_repo_key(pr: GraphQLSearchPr) -> Seq<char> {
    match pr.repository {
        Some(r) => r.owner.login@ + "/"@ + r.name@,
        None => seq![],
    }
}

/// A searched pull request counts in the member phase when it has a
/// repository and a number and its repository was not ingested already.
pub open spec fn member_pr_counts(pr: GraphQLSearchPr, ingested: Set<Seq<char>>) -> bool {
    pr.repository is Some && pr.number is Some && !ingested.contains(pr_repo_key(pr))
}

/// Maximum after the pull requests `prs` of the team phase.
pub open spec fn team_max(max: Option<Seq<char>>, prs: Seq<GraphQLSearchPr>) -> Option<Seq<char>>
    decreases prs.len(),
{
    if prs.len() == 0 {
        max
    } else {
        track_opt(team_max(max, prs.drop_last()), prs.last().updated_at)
    }
}

/// Maximum after the pull requests `prs` of the member phase.
pub open spec fn member_max(
    max: Option<Seq<char>>,
    prs: Seq<GraphQLSearchPr>,
    ingested: Set<Seq<char>>,
) -> Option<Seq<char>>
    decreases prs.len(),
{
    if prs.len() == 0 {
        max
    } else {
        let m = member_max(max, prs.drop_last(), ingested);
        if member_pr_counts(prs.last(), ingested) {
            track_opt(m, prs.last().updated_at)
        } else {
            m
        }
    }
}

/// The pull requests of the team phase that yield records: those with an
/// `updated_at`.
pub open spec fn team_prs(prs: Seq<GraphQLSearchPr>) -> Seq<GraphQLSearchPr> {
    prs.filter(team_pred())
}

pub open spec fn team_pred() -> spec_fn(GraphQLSearchPr) -> bool {
    |p: GraphQLSearchPr| p.updated_at is Some
}

pub open spec fn member_pred(ingested: Set<Seq<char>>) -> spec_fn(GraphQLSearchPr) -> bool {
    |p: GraphQLSearchPr| member_pr_counts(p, ingested)
}

/// The pull requests of the member phase that yield records.
pub open spec fn member_prs(prs: Seq<GraphQLSearchPr>, ingested: Set<Seq<char>>) -> Seq<GraphQLSearchPr> {
    prs.filter(member_pred(ingested))
}

/// Owner login of a searched pull request's repository.
pub open spec fn pr_owner(pr: GraphQLSearchPr) -> Seq<char> {
    match pr.repository {
        Some(r) => r.owner.login@,
        None => seq![],
    }
}

/// Name of a searched pull request's repository.
pub open spec fn pr_repo_name(pr: GraphQLSearchPr) -> Seq<char> {
    match pr.repository {
        Some(r) => r.name@,
        None => seq![],
    }
}

/// Flattening of groups of records.
pub open spec fn flatten(groups: Seq<Seq<ContributionInput>>) -> Seq<ContributionInput>
    decreases groups.len(),
{
    if groups.len() == 0 {
        seq![]
    } else {
        flatten(groups.drop_last()) + groups.last()
    }
}

/// `items` is the concatenation of the records of `prs`, each pull request
/// converted within `owner_of`/`repo_of` of its own.
pub open spec fn records_of(
    items: Seq<ContributionInput>,
    prs: Seq<GraphQLSearchPr>,
    owners: Seq<Seq<char>>,
    repos: Seq<Seq<char>>,
) -> bool {
    exists|groups: Seq<Seq<ContributionInput>>|
        groups.len() == prs.len() && flatten(groups) == items && forall|i: int|
            0 <= i < prs.len() ==> search_pr_items(#[trigger] groups[i], owners[i], repos[i], prs[i])
}

pub open spec fn ingested_set(cur: Cursor) -> Set<Seq<char>> {
    keys_view(cur.ingested_repos@).to_set()
}

/// No repo key occurs twice.
pub open spec fn keys_unique(cur: Cursor) -> bool {
    keys_view(cur.ingested_repos@).no_duplicates()
}

fn contains_key(keys: &Vec<String>, key: &str) -> (r: bool)
    ensures
        r == keys_view(keys@).contains(key@),
{
    let mut i: usize = 0;
    while i < keys.len()
        invariant
            i <= keys@.len(),
            forall|k: int| 0 <= k < i ==> keys@[k]@ != key@,
        decreases keys.len() - i,
    {
        if str_eq(keys[i].as_str(), key) {
            proof {
                assert(keys_view(keys@)[i as int] == key@);
            }
            return true;
        }
        i = i + 1;
    }
    proof {
        if keys_view(keys@).contains(key@) {
            let k = choose|k: int| 0 <= k < keys_view(keys@).len() && keys_view(keys@)[k] == key@;
            assert(keys@[k]@ == key@);
        }
    }
    false
}

fn repo_key(owner: &str, repo: &str) -> (r: String)
    ensures
        r@ == owner@ + "/"@ + repo@,
{
    let mut s = owned(owner);
    push_str(&mut s, "/");
    push_str(&mut s, repo);
    s
}

fn track(max: &mut Option<String>, updated_at: &String)
    ensures
        opt_view(*final(max)) == track_max(opt_view(*old(max)), updated_at@),
{
    let replace = match max {
        Some(m) => str_lt(m.as_str(), updated_at.as_str()),
        None => true,
    };
    if replace {
        *max = Some(updated_at.clone());
    }
}

proof fn lemma_push_to_set(s: Seq<Seq<char>>, x: Seq<char>)
    ensures
        s.push(x).to_set() == s.to_set().insert(x),
        s.push(x).no_duplicates() <== s.no_duplicates() && !s.contains(x),
{
    assert forall|y: Seq<char>| s.push(x).to_set().contains(y) <==> s.to_set().insert(x).contains(y) by {
        if s.to_set().contains(y) && y != x {
            let k = choose|k: int| 0 <= k < s.len() && s[k] == y;
            assert(s.push(x)[k] == y);
        }
        if y == x {
            assert(s.push(x)[s.len() as int] == x);
        }
        if s.push(x).to_set().contains(y) && y != x {
            let k = choose|k: int| 0 <= k < s.len() + 1 && s.push(x)[k] == y;
            assert(s[k] == y);
        }
    }
    assert(s.push(x).to_set() =~= s.to_set().insert(x));
}

proof fn lemma_flatten_push(groups: Seq<Seq<ContributionInput>>, g: Seq<ContributionInput>)
    ensures
        flatten(groups.push(g)) == flatten(groups) + g,
{
    assert(groups.push(g).drop_last() =~= groups);
}

/// Absorbs a page of a team repo search: records the rate limit, marks the
/// repo as ingested, tracks the latest `updated_at`, converts the pull
/// requests that have one, and moves to the next page or the next repo.
pub fn absorb_team_repo_page(cur: &mut Cursor, owner: &str, repo: &str, page: SearchPage) -> (r:
    Result<Vec<ContributionInput>, IngestionError>)
    requires
        keys_unique(*old(cur)),
        old(cur).phase == IngestionPhase::TeamRepos,
        old(cur).repo_index < old(cur).repos@.len(),
    ensures
        r is Ok <==> forall|i: int|
            0 <= i < team_prs(page.items@).len() ==> search_pr_dates_parse(
                #[trigger] team_prs(page.items@)[i],
            ),
        r matches Ok(items) ==> {
            let prs = team_prs(page.items@);
            &&& records_of(
                items@,
                prs,
                Seq::new(prs.len(), |i: int| owner@),
                Seq::new(prs.len(), |i: int| repo@),
            )
            &&& keys_unique(*final(cur))
            &&& ingested_set(*final(cur)) == ingested_set(*old(cur)).insert(owner@ + "/"@ + repo@)
            &&& final(cur).last_rate_limit_remaining == Some(page.rate_limit.remaining)
            &&& opt_view(final(cur).max_updated_at) == team_max(
                opt_view(old(cur).max_updated_at),
                page.items@,
            )
            &&& final(cur).phase == IngestionPhase::TeamRepos
            &&& final(cur).repos@ == old(cur).repos@
            &&& if page.has_next_page {
                final(cur).repo_index == old(cur).repo_index && opt_view(final(cur).graphql_cursor)
                    == opt_view(page.end_cursor)
            } else {
                final(cur).repo_index == old(cur).repo_index + 1 && final(cur).graphql_cursor is None
            }
            &&& final(cur).search_user_index == old(cur).search_user_index
            &&& final(cur).search_users@ == old(cur).search_users@
            &&& final(cur).search_graphql_cursor == old(cur).search_graphql_cursor
            &&& final(cur).watermark == old(cur).watermark
            &&& final(cur).orgs@ == old(cur).orgs@
            &&& final(cur).failed_items@ == old(cur).failed_items@
        },
{
    cur.last_rate_limit_remaining = Some(page.rate_limit.remaining);
    let key = repo_key(owner, repo);
    let ghost old_keys = keys_view(cur.ingested_repos@);
    if !contains_key(&cur.ingested_repos, key.as_str()) {
        cur.ingested_repos.push(key);
        proof {
            assert(keys_view(cur.ingested_repos@) =~= old_keys.push(owner@ + "/"@ + repo@));
            lemma_push_to_set(old_keys, owner@ + "/"@ + repo@);
        }
    } else {
        proof {
            assert(old_keys.to_set().insert(owner@ + "/"@ + repo@) =~= old_keys.to_set());
        }
    }
    let ghost prs_all = page.items@;
    let ghost mut groups: Seq<Seq<ContributionInput>> = seq![];
    let ghost start_max = opt_view(cur.max_updated_at);
    let mut items: Vec<ContributionInput> = Vec::new();
    let mut i: usize = 0;
    while i < page.items.len()
        invariant
            i <= page.items@.len(),
            prs_all == page.items@,
            groups.len() == team_prs(prs_all.take(i as int)).len(),
            flatten(groups) == items@,
            forall|k: int|
                0 <= k < groups.len() ==> search_pr_items(
                    #[trigger] groups[k],
                    owner@,
                    repo@,
                    team_prs(prs_all.take(i as int))[k],
                ),
            forall|k: int|
                0 <= k < team_prs(prs_all.take(i as int)).len() ==> search_pr_dates_parse(
                    #[trigger] team_prs(prs_all.take(i as int))[k],
                ),
            opt_view(cur.max_updated_at) == team_max(start_max, prs_all.take(i as int)),
            cur.phase == old(cur).phase,
            cur.repo_index == old(cur).repo_index,
            cur.repos@ == old(cur).repos@,
            cur.graphql_cursor == old(cur).graphql_cursor,
            cur.search_user_index == old(cur).search_user_index,
            cur.search_users@ == old(cur).search_users@,
            cur.search_graphql_cursor == old(cur).search_graphql_cursor,
            cur.watermark == old(cur).watermark,
            cur.orgs@ == old(cur).orgs@,
            cur.failed_items@ == old(cur).failed_items@,
            cur.last_rate_limit_remaining == Some(page.rate_limit.remaining),
            keys_unique(*cur),
            ingested_set(*cur) == ingested_set(*old(cur)).insert(owner@ + "/"@ + repo@),
            start_max == opt_view(old(cur).max_updated_at),
        decreases page.items.len() - i,
    {
        let pr = &page.items[i];
        proof {
            assert(prs_all.take(i + 1).drop_last() =~= prs_all.take(i as int));
            assert(prs_all.take(i + 1) =~= prs_all.take(i as int).push(*pr));
            lemma_filter_push(prs_all.take(i as int), team_pred(), *pr);
        }
        match &pr.updated_at {
            None => {},
            Some(updated_at) => {
                track(&mut cur.max_updated_at, updated_at);
                let converted = search_pr_to_contributions(owner, repo, pr);
                match converted {
                    Err(e) => {
                        proof {
                            let t = team_prs(prs_all.take(i + 1));
                            assert(t.last() == *pr);
                            assert(!search_pr_dates_parse(t[t.len() - 1]));
                            lemma_filter_prefix(prs_all, team_pred(), i + 1);
                            assert(!search_pr_dates_parse(team_prs(prs_all)[t.len() - 1]));
                        }
                        return Err(e);
                    },
                    Ok(mut more) => {
                        let ghost g = more@;
                        proof {
                            lemma_flatten_push(groups, g);
                            groups = groups.push(g);
                        }
                        items.append(&mut more);
                    },
                }
            },
        }
        i = i + 1;
    }
    proof {
        assert(prs_all.take(prs_all.len() as int) =~= prs_all);
        let prs = team_prs(prs_all);
        assert forall|k: int| 0 <= k < prs.len() implies search_pr_items(
            #[trigger] groups[k],
            Seq::new(prs.len(), |i: int| owner@)[k],
            Seq::new(prs.len(), |i: int| repo@)[k],
            prs[k],
        ) by {}
    }
    if page.has_next_page {
        cur.graphql_cursor = page.end_cursor;
    } else {
        let n = cur.repos.len();
        cur.repo_index = cur.repo_index + 1;
        cur.graphql_cursor = None;
    }
    Ok(items)
}

/// Absorbs a page of a member search: records the rate limit, keeps the pull
/// requests whose repository was not ingested in the team phase, tracks
/// their latest `updated_at`, converts them, and moves to the next page or
/// the next batch of members.
pub fn absorb_member_search_page(cur: &mut Cursor, batch_end: usize, page: SearchPage) -> (r:
    Result<Vec<ContributionInput>, IngestionError>)
    requires
        old(cur).phase == IngestionPhase::MemberSearch,
        old(cur).search_user_index <= batch_end <= old(cur).search_users@.len(),
    ensures
        ({
            let prs = member_prs(page.items@, ingested_set(*old(cur)));
            r is Ok <==> forall|i: int| 0 <= i < prs.len() ==> search_pr_dates_parse(#[trigger] prs[i])
        }),
        r matches Ok(items) ==> {
            let prs = member_prs(page.items@, ingested_set(*old(cur)));
            &&& records_of(
                items@,
                prs,
                Seq::new(prs.len(), |i: int| pr_owner(prs[i])),
                Seq::new(prs.len(), |i: int| pr_repo_name(prs[i])),
            )
            &&& final(cur).ingested_repos@ == old(cur).ingested_repos@
            &&& final(cur).last_rate_limit_remaining == Some(page.rate_limit.remaining)
            &&& opt_view(final(cur).max_updated_at) == member_max(
                opt_view(old(cur).max_updated_at),
                page.items@,
                ingested_set(*old(cur)),
            )
            &&& final(cur).phase == IngestionPhase::MemberSearch
            &&& final(cur).repo_index == old(cur).repo_index
            &&& final(cur).repos@ == old(cur).repos@
            &&& final(cur).search_users@ == old(cur).search_users@
            &&& final(cur).orgs@ == old(cur).orgs@
            &&& final(cur).watermark == old(cur).watermark
            &&& final(cur).graphql_cursor == old(cur).graphql_cursor
            &&& final(cur).failed_items@ == old(cur).failed_items@
            &&& if page.has_next_page {
                final(cur).search_user_index == old(cur).search_user_index && opt_view(
                    final(cur).search_graphql_cursor,
                ) == opt_view(page.end_cursor)
            } else {
                final(cur).search_user_index == batch_end && final(cur).search_graphql_cursor is None
            }
        },
{
    cur.last_rate_limit_remaining = Some(page.rate_limit.remaining);
    let ghost ing = ingested_set(*cur);
    let ghost prs_all = page.items@;
    let ghost mut groups: Seq<Seq<ContributionInput>> = seq![];
    let ghost start_max = opt_view(cur.max_updated_at);
    let mut items: Vec<ContributionInput> = Vec::new();
    let mut i: usize = 0;
    while i < page.items.len()
        invariant
            i <= page.items@.len(),
            prs_all == page.items@,
            ing == ingested_set(*old(cur)),
            groups.len() == member_prs(prs_all.take(i as int), ing).len(),
            flatten(groups) == items@,
            forall|k: int|
                0 <= k < groups.len() ==> {
                    let p = member_prs(prs_all.take(i as int), ing)[k];
                    search_pr_items(#[trigger] groups[k], pr_owner(p), pr_repo_name(p), p)
                },
            forall|k: int|
                0 <= k < member_prs(prs_all.take(i as int), ing).len() ==> search_pr_dates_parse(
                    #[trigger] member_prs(prs_all.take(i as int), ing)[k],
                ),
            opt_view(cur.max_updated_at) == member_max(start_max, prs_all.take(i as int), ing),
            cur.phase == old(cur).phase,
            cur.repo_index == old(cur).repo_index,
            cur.repos@ == old(cur).repos@,
            cur.search_user_index == old(cur).search_user_index,
            cur.search_users@ == old(cur).search_users@,
            cur.search_graphql_cursor == old(cur).search_graphql_cursor,
            cur.orgs@ == old(cur).orgs@,
            cur.ingested_repos@ == old(cur).ingested_repos@,
            cur.watermark == old(cur).watermark,
            cur.graphql_cursor == old(cur).graphql_cursor,
            cur.failed_items@ == old(cur).failed_items@,
            cur.last_rate_limit_remaining == Some(page.rate_limit.remaining),
            start_max == opt_view(old(cur).max_updated_at),
        decreases page.items.len() - i,
    {
        let pr = &page.items[i];
        proof {
            assert(prs_all.take(i + 1).drop_last() =~= prs_all.take(i as int));
            assert(prs_all.take(i + 1) =~= prs_all.take(i as int).push(*pr));
            lemma_filter_push(prs_all.take(i as int), member_pred(ing), *pr);
        }
        match &pr.repository {
            None => {},
            Some(info) => {
                if pr.number.is_some() {
                    let owner = info.owner.login.as_str();
                    let name = info.name.as_str();
                    let key = repo_key(owner, name);
                    if !contains_key(&cur.ingested_repos, key.as_str()) {
                        proof {
                            assert(member_pr_counts(*pr, ing));
                        }
                        match &pr.updated_at {
                            Some(updated_at) => track(&mut cur.max_updated_at, updated_at),
                            None => {},
                        }
                        let converted = search_pr_to_contributions(owner, name, pr);
                        match converted {
                            Err(e) => {
                                proof {
                                    let t = member_prs(prs_all.take(i + 1), ing);
                                    assert(t.last() == *pr);
                                    lemma_filter_prefix(prs_all, member_pred(ing), i + 1);
                                    assert(!search_pr_dates_parse(
                                        member_prs(prs_all, ing)[t.len() - 1],
                                    ));
                                }
                                return Err(e);
                            },
                            Ok(mut more) => {
                                let ghost g = more@;
                                proof {
                                    lemma_flatten_push(groups, g);
                                    groups = groups.push(g);
                                }
                                items.append(&mut more);
                            },
                        }
                    } else {
                        proof {
                            assert(!member_pr_counts(*pr, ing));
                        }
                    }
                }
            },
        }
        i = i + 1;
    }
    proof {
        assert(prs_all.take(prs_all.len() as int) =~= prs_all);
        let prs = member_prs(prs_all, ing);
        assert forall|k: int| 0 <= k < prs.len() implies search_pr_items(
            #[trigger] groups[k],
            Seq::new(prs.len(), |i: int| pr_owner(prs[i]))[k],
            Seq::new(prs.len(), |i: int| pr_repo_name(prs[i]))[k],
            prs[k],
        ) by {}
    }
    if page.has_next_page {
        cur.search_graphql_cursor = page.end_cursor;
    } else {
        cur.search_user_index = batch_end;
        cur.search_graphql_cursor = None;
    }
    Ok(items)
}

// ---------------------------------------------------------------------------
// Failed fetches
// ---------------------------------------------------------------------------

/// Text of a GraphQL-level error, as the client displays it.
pub open spec fn graphql_error_text(messages: Seq<char>) -> Seq<char> {
    "GraphQL errors: "@ + messages
}

/// A search failed because the GraphQL budget is exhausted: a GraphQL-level
/// error whose text mentions a rate limit.
pub open spec fn is_rate_limit_error(e: GraphQLClientError) -> bool {
    e matches GraphQLClientError::GraphQL { messages } && contains_seq(
        graphql_error_text(messages@),
        "rate limit"@,
    )
}

pub fn rate_limit_exhausted(e: &GraphQLClientError) -> (r: bool)
    ensures
        r == is_rate_limit_error(*e),
{
    match e {
        GraphQLClientError::GraphQL { messages } => {
            let mut text = owned("GraphQL errors: ");
            push_str(&mut text, messages.as_str());
            contains_chars(&to_chars(text.as_str()), &to_chars("rate limit"))
        },
        _ => false,
    }
}

/// The rate limit reported when the budget is exhausted: none remaining out
/// of 5000, resetting an hour after `now`. (The GraphQL limit is cost
/// based, so a query can be refused while points remain; reporting none
/// left makes the caller sleep instead of retrying at once.)
pub fn exhausted_rate_limit_at(now: Timestamp) -> (r: RateLimitInfo)
    requires
        in_instant_range(now as int),
    ensures
        r.remaining == 0,
        r.limit == 5000,
        r.reset_at == now + 3600 * NANOS_PER_SECOND,
{
    RateLimitInfo { remaining: 0, limit: 5000, reset_at: now + 3600 * NANOS_PER_SECOND }
}

/// [`exhausted_rate_limit_at`] the current time.
pub fn exhausted_rate_limit() -> (r: RateLimitInfo)
    ensures
        r.remaining == 0,
        r.limit == 5000,
        in_instant_range(r.reset_at - 3600 * NANOS_PER_SECOND),
{
    exhausted_rate_limit_at(now_utc())
}

/// A failed fetch of a team repo is isolated: the repo is recorded as failed
/// with the error's text, and the cursor moves on to the next repo.
pub fn skip_failed_repo(cur: &mut Cursor, error: String)
    requires
        old(cur).phase == IngestionPhase::TeamRepos,
        old(cur).repo_index < old(cur).repos@.len(),
    ensures
        ({
            let t = old(cur).repos@[old(cur).repo_index as int];
            &&& final(cur).failed_items@.len() == old(cur).failed_items@.len() + 1
            &&& final(cur).failed_items@.drop_last() == old(cur).failed_items@
            &&& final(cur).failed_items@.last().key@ == t.owner@ + "/"@ + t.repo@
            &&& final(cur).failed_items@.last().error@ == error@
        }),
        final(cur).repo_index == old(cur).repo_index + 1,
        final(cur).graphql_cursor is None,
        final(cur).phase == old(cur).phase,
        final(cur).repos@ == old(cur).repos@,
        final(cur).ingested_repos@ == old(cur).ingested_repos@,
        opt_view(final(cur).max_updated_at) == opt_view(old(cur).max_updated_at),
        final(cur).last_rate_limit_remaining == old(cur).last_rate_limit_remaining,
        final(cur).watermark == old(cur).watermark,
        final(cur).orgs@ == old(cur).orgs@,
        final(cur).search_user_index == old(cur).search_user_index,
        final(cur).search_graphql_cursor == old(cur).search_graphql_cursor,
        final(cur).search_users@ == old(cur).search_users@,
{
    let n = cur.repos.len();
    let key = repo_key(cur.repos[cur.repo_index].owner.as_str(), cur.repos[cur.repo_index].repo.as_str());
    cur.failed_items.push(FailedItem { key, error });
    cur.repo_index = cur.repo_index + 1;
    cur.graphql_cursor = None;
    proof {
        assert(cur.failed_items@.drop_last() =~= old(cur).failed_items@);
    }
}

/// Key under which a failed member batch is recorded:
/// `member_search[u1, u2, ...]`.
pub open spec fn batch_key(users: Seq<Seq<char>>) -> Seq<char> {
    "member_search["@ + join_spec(users, ", "@) + "]"@
}

/// A failed member search is isolated: the batch is recorded as failed with
/// the error's text, and the cursor moves on to the next batch.
pub fn skip_failed_batch(cur: &mut Cursor, batch_end: usize, error: String)
    requires
        old(cur).phase == IngestionPhase::MemberSearch,
        old(cur).search_user_index <= batch_end <= old(cur).search_users@.len(),
    ensures
        final(cur).failed_items@.len() == old(cur).failed_items@.len() + 1,
        final(cur).failed_items@.drop_last() == old(cur).failed_items@,
        final(cur).failed_items@.last().key@ == batch_key(
            keys_view(old(cur).search_users@.subrange(old(cur).search_user_index as int, batch_end as int)),
        ),
        final(cur).failed_items@.last().error@ == error@,
        final(cur).search_user_index == batch_end,
        final(cur).search_graphql_cursor is None,
        final(cur).phase == old(cur).phase,
        final(cur).search_users@ == old(cur).search_users@,
        final(cur).ingested_repos@ == old(cur).ingested_repos@,
        opt_view(final(cur).max_updated_at) == opt_view(old(cur).max_updated_at),
        final(cur).watermark == old(cur).watermark,
        final(cur).orgs@ == old(cur).orgs@,
        final(cur).repos@ == old(cur).repos@,
        final(cur).repo_index == old(cur).repo_index,
        final(cur).graphql_cursor == old(cur).graphql_cursor,
        final(cur).last_rate_limit_remaining == old(cur).last_rate_limit_remaining,
{
    let mut batch: Vec<String> = Vec::new();
    let mut i = cur.search_user_index;
    while i < batch_end
        invariant
            cur.search_user_index <= i <= batch_end <= cur.search_users@.len(),
            batch@.len() == i - cur.search_user_index,
            keys_view(batch@) == keys_view(cur.search_users@.subrange(cur.search_user_index as int, i as int)),
        decreases batch_end - i,
    {
        let ghost before = batch@;
        let u = cur.search_users[i].clone();
        batch.push(u);
        proof {
            assert(batch@ == before.push(u));
            assert(cur.search_users@.subrange(cur.search_user_index as int, i + 1) =~= cur.search_users@.subrange(
                cur.search_user_index as int,
                i as int,
            ).push(cur.search_users@[i as int]));
            let lo = cur.search_user_index as int;
            assert(keys_view(batch@).len() == i + 1 - lo);
            assert forall|k: int| 0 <= k < i + 1 - lo implies #[trigger] keys_view(batch@)[k]
                == keys_view(cur.search_users@.subrange(lo, i + 1))[k] by {
                if k < i - lo {
                    assert(keys_view(before)[k] == keys_view(cur.search_users@.subrange(lo, i as int))[k]);
                }
            }
            assert(keys_view(batch@) =~= keys_view(
                cur.search_users@.subrange(cur.search_user_index as int, i + 1),
            ));
        }
        i = i + 1;
    }
    let mut key = owned("member_search[");
    let joined = join_strings(&batch, ", ");
    push_str(&mut key, joined.as_str());
    push_str(&mut key, "]");
    proof {
        assert(batch@.map_values(|s: String| s@) == keys_view(batch@));
    }
    cur.failed_items.push(FailedItem { key, error });
    cur.search_user_index = batch_end;
    cur.search_graphql_cursor = None;
    proof {
        assert(cur.failed_items@.drop_last() =~= old(cur).failed_items@);
    }
}

} // verus!
