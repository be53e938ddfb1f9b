//! Per-source ingestion settings and the progress reported while a run is
//! fetching: counters per source and a human-readable status message.
use vstd::prelude::*;

use crate::ingestion::contribution::ContributionInput;
use crate::model::{in_instant_range, now_utc, ContributionType, Platform, RateLimitInfo, Timestamp};
use crate::text::{dec, dec_int, first_index, lemma_first_index, owned, push_i64, push_str, push_u64, str_eq, string_from_range, to_chars, find_char};

verus! {

// ---------------------------------------------------------------------------
// Ingestion settings per source type
// ---------------------------------------------------------------------------

/// Secrets a source may need.
#[derive(Debug, Clone, Copy, PartialEq, Eq, Structural)]
pub enum SecretKey {
    ApiToken,
    Email,
    ApiKey,
    ApiUsername,
}

/// Which secrets an ingestion handler decrypts and what its items are
/// called in error summaries.
#[derive(Debug, Clone, Copy)]
pub struct IngestionSpec {
    pub handler_name: &'static str,
    /// Secret holding the API token, if the source has one.
    pub token_key: Option<SecretKey>,
    /// Whether a missing token is an error.
    pub token_required: bool,
    /// Secret holding an e-mail credential (Jira basic auth).
    pub email_key: Option<SecretKey>,
    /// Secret holding an API username (Discourse).
    pub api_username_key: Option<SecretKey>,
    /// Noun for items in error summaries.
    pub item_noun: &'static str,
}

/// The settings of each source type.
pub open spec fn spec_of(p: Platform) -> (Seq<char>, Option<SecretKey>, bool, Option<SecretKey>, Option<SecretKey>, Seq<char>) {
    match p {
        Platform::Github => ("GithubIngestionHandler"@, Some(SecretKey::ApiToken), true, None, None, "repo"@),
        Platform::Jira => (
            "JiraIngestionHandler"@,
            Some(SecretKey::ApiToken),
            true,
            Some(SecretKey::Email),
            None,
            "project"@,
        ),
        Platform::Discourse(_) => (
            "DiscourseIngestionHandler"@,
            Some(SecretKey::ApiKey),
            false,
            None,
            Some(SecretKey::ApiUsername),
            "category"@,
        ),
        _ => ("UnknownHandler"@, None, false, None, None, "item"@),
    }
}

pub open spec fn spec_view(s: IngestionSpec) -> (Seq<char>, Option<SecretKey>, bool, Option<SecretKey>, Option<SecretKey>, Seq<char>) {
    (s.handler_name@, s.token_key, s.token_required, s.email_key, s.api_username_key, s.item_noun@)
}

/// The ingestion settings of a source type.
pub fn spec_for_source_type(source_type: &Platform) -> (r: IngestionSpec)
    ensures
        spec_view(r) == spec_of(*source_type),
{
    match source_type {
        Platform::Github => IngestionSpec {
            handler_name: "GithubIngestionHandler",
            token_key: Some(SecretKey::ApiToken),
            token_required: true,
            email_key: None,
            api_username_key: None,
            item_noun: "repo",
        },
        Platform::Jira => IngestionSpec {
            handler_name: "JiraIngestionHandler",
            token_key: Some(SecretKey::ApiToken),
            token_required: true,
            email_key: Some(SecretKey::Email),
            api_username_key: None,
            item_noun: "project",
        },
        Platform::Discourse(_) => IngestionSpec {
            handler_name: "DiscourseIngestionHandler",
            token_key: Some(SecretKey::ApiKey),
            token_required: false,
            email_key: None,
            api_username_key: Some(SecretKey::ApiUsername),
            item_noun: "category",
        },
        _ => IngestionSpec {
            handler_name: "UnknownHandler",
            token_key: None,
            token_required: false,
            email_key: None,
            api_username_key: None,
            item_noun: "item",
        },
    }
}

// ---------------------------------------------------------------------------
// Counting
// ---------------------------------------------------------------------------

/// Number of items of a type.
pub open spec fn count_type(items: Seq<ContributionInput>, t: ContributionType) -> nat
    decreases items.len(),
{
    if items.len() == 0 {
        0
    } else {
        count_type(items.drop_last(), t) + if items.last().contribution_type == t {
            1nat
        } else {
            0nat
        }
    }
}

fn count_of_type(items: &Vec<ContributionInput>, t: ContributionType) -> (r: u64)
    ensures
        r == count_type(items@, t),
{
    let mut n: u64 = 0;
    let mut i: usize = 0;
    while i < items.len()
        invariant
            i <= items@.len(),
            n == count_type(items@.take(i as int), t),
            n <= i,
        decreases items.len() - i,
    {
        proof {
            assert(items@.take(i + 1).drop_last() =~= items@.take(i as int));
        }
        if items[i].contribution_type == t {
            n = n + 1;
        }
        i = i + 1;
    }
    proof {
        assert(items@.take(items@.len() as int) =~= items@);
    }
    n
}

/// `(a as u32).saturating_sub(b as u32)` for a length and a stored count
/// (both converted as `as` does: modulo 2^32).
pub open spec fn skipped_identities(len: int, stored: i32) -> int {
    let l = len % 0x1_0000_0000;
    let s = if stored >= 0 {
        stored as int
    } else {
        stored + 0x1_0000_0000
    };
    if l > s {
        l - s
    } else {
        0
    }
}

/// Progress counters of a GitHub ingestion.
#[derive(Debug, Clone, Copy, PartialEq, Eq, Structural)]
pub struct GithubProgressTracker {
    pub prs_fetched: u32,
    pub reviews_fetched: u32,
    pub identities_skipped: u32,
}

impl GithubProgressTracker {
    pub fn new() -> (r: GithubProgressTracker)
        ensures
            r.prs_fetched == 0 && r.reviews_fetched == 0 && r.identities_skipped == 0,
    {
        GithubProgressTracker { prs_fetched: 0, reviews_fetched: 0, identities_skipped: 0 }
    }

    /// Counts a fetched batch: its pull requests and reviews, and the items
    /// that were not stored (their author could not be resolved).
    pub fn count_batch(&mut self, items: &Vec<ContributionInput>, stored: i32)
        requires
            old(self).prs_fetched + count_type(items@, ContributionType::PullRequest) <= u32::MAX,
            old(self).reviews_fetched + count_type(items@, ContributionType::PrReview) <= u32::MAX,
            old(self).identities_skipped + skipped_identities(items@.len() as int, stored) <= u32::MAX,
        ensures
            final(self).prs_fetched == old(self).prs_fetched + count_type(items@, ContributionType::PullRequest),
            final(self).reviews_fetched == old(self).reviews_fetched + count_type(
                items@,
                ContributionType::PrReview,
            ),
            final(self).identities_skipped == old(self).identities_skipped + skipped_identities(
                items@.len() as int,
                stored,
            ),
    {
        let prs = count_of_type(items, ContributionType::PullRequest);
        let reviews = count_of_type(items, ContributionType::PrReview);
        self.prs_fetched = self.prs_fetched + prs as u32;
        self.reviews_fetched = self.reviews_fetched + reviews as u32;
        let len: u64 = items.len() as u64 % 0x1_0000_0000;
        let s: u64 = if stored >= 0 {
            stored as u64
        } else {
            (stored as i64 + 0x1_0000_0000) as u64
        };
        let skipped = if len > s {
            len - s
        } else {
            0
        };
        self.identities_skipped = self.identities_skipped + skipped as u32;
    }
}

/// Progress counters of a Jira ingestion.
#[derive(Debug, Clone, Copy, PartialEq, Eq, Structural)]
pub struct JiraProgressTracker {
    pub tickets_fetched: u32,
}

impl JiraProgressTracker {
    pub fn new() -> (r: JiraProgressTracker)
        ensures
            r.tickets_fetched == 0,
    {
        JiraProgressTracker { tickets_fetched: 0 }
    }

    /// Counts the tickets of a fetched batch.
    pub fn count_batch(&mut self, items: &Vec<ContributionInput>)
        requires
            old(self).tickets_fetched + count_type(items@, ContributionType::JiraTicket) <= u32::MAX,
        ensures
            final(self).tickets_fetched == old(self).tickets_fetched + count_type(
                items@,
                ContributionType::JiraTicket,
            ),
    {
        let n = count_of_type(items, ContributionType::JiraTicket);
        self.tickets_fetched = self.tickets_fetched + n as u32;
    }
}

/// Progress counters of a source with no tracker of its own.
#[derive(Debug, Clone, Copy, PartialEq, Eq, Structural)]
pub struct GenericProgressTracker {
    pub items: u32,
}

impl GenericProgressTracker {
    pub fn new() -> (r: GenericProgressTracker)
        ensures
            r.items == 0,
    {
        GenericProgressTracker { items: 0 }
    }

    /// Counts the items of a fetched batch (their number taken modulo 2^32,
    /// as `as u32` does).
    pub fn count_batch(&mut self, items: &Vec<ContributionInput>)
        requires
            old(self).items + items@.len() % 0x1_0000_0000 <= u32::MAX,
        ensures
            final(self).items == old(self).items + items@.len() % 0x1_0000_0000,
    {
        let n: u64 = items.len() as u64 % 0x1_0000_0000;
        self.items = self.items + n as u32;
    }

    /// `Processing ({n} items fetched)`.
    pub fn status_message(&self) -> (r: String)
        ensures
            r@ == "Processing ("@ + dec(self.items as nat) + " items fetched)"@,
    {
        let mut m = owned("Processing (");
        push_u64(&mut m, self.items as u64);
        push_str(&mut m, " items fetched)");
        m
    }
}

// ---------------------------------------------------------------------------
// GitHub progress report
// ---------------------------------------------------------------------------

/// An entry of the cursor's `repos` array.
#[derive(Debug, Clone)]
pub struct RepoEntry {
    pub owner: Option<String>,
    pub repo: Option<String>,
}

/// What the GitHub progress report reads from a serialised cursor; a field
/// that is absent or of another JSON type is `None`.
#[derive(Debug, Clone)]
pub struct GithubCursorView {
    pub phase: Option<String>,
    pub repos: Option<Vec<RepoEntry>>,
    pub repo_index: Option<u64>,
    pub watermark: Option<String>,
    pub search_users: Option<Vec<Option<String>>>,
    pub search_user_index: Option<u64>,
}

/// A GitHub progress report.
#[derive(Debug, Clone)]
pub struct GithubProgress {
    pub phase: String,
    pub prs_fetched: u32,
    pub reviews_fetched: u32,
    pub identities_skipped: u32,
    pub repos_total: Option<u64>,
    pub repos_completed: Option<u64>,
    pub current_repo: Option<String>,
    pub search_users_total: Option<u64>,
    pub search_users_completed: Option<u64>,
    pub rate_limit_remaining: Option<i32>,
    pub rate_limit_limit: Option<i32>,
    pub status_message: String,
}

pub open spec fn text_or(o: Option<String>, d: Seq<char>) -> Seq<char> {
    match o {
        Some(s) => s@,
        None => d,
    }
}

pub open spec fn raw_phase(c: GithubCursorView) -> Seq<char> {
    text_or(c.phase, "unknown"@)
}

/// The phase as reported: `team_repos`, `member_search`, or as the cursor
/// names it.
pub open spec fn phase_label(raw: Seq<char>) -> Seq<char> {
    if raw == "TeamRepos"@ {
        "team_repos"@
    } else if raw == "MemberSearch"@ {
        "member_search"@
    } else {
        raw
    }
}

pub open spec fn repos_len(c: GithubCursorView) -> nat {
    match c.repos {
        Some(v) => v@.len(),
        None => 0,
    }
}

pub open spec fn repo_index_of(c: GithubCursorView) -> nat {
    match c.repo_index {
        Some(i) => i as nat,
        None => 0,
    }
}

/// `owner/repo` of the repo being fetched, when the index is within `repos`.
pub open spec fn current_repo_spec(c: GithubCursorView) -> Option<Seq<char>> {
    match c.repos {
        Some(v) => if repo_index_of(c) < v@.len() {
            let e = v@[repo_index_of(c) as int];
            Some(text_or(e.owner, ""@) + "/"@ + text_or(e.repo, ""@))
        } else {
            None
        },
        None => None,
    }
}

pub open spec fn users_len(c: GithubCursorView) -> nat {
    match c.search_users {
        Some(v) => v@.len(),
        None => 0,
    }
}

pub open spec fn user_index_of(c: GithubCursorView) -> nat {
    match c.search_user_index {
        Some(i) => i as nat,
        None => 0,
    }
}

/// Whole minutes of a span of nanoseconds, truncated toward zero.
pub open spec fn whole_minutes(nanos: int) -> int {
    if nanos >= 0 {
        nanos / 60_000_000_000
    } else {
        -((-nanos) / 60_000_000_000)
    }
}

/// The date part of a watermark (before the first `T`), or `all time`.
pub open spec fn since_spec(watermark: Seq<char>) -> Seq<char> {
    if watermark.len() == 0 {
        "all time"@
    } else {
        match first_index(watermark, 'T') {
            Some(i) => watermark.subrange(0, i),
            None => watermark,
        }
    }
}

/// The status message: rate limit pressure first (fewer than 100 calls
/// left); otherwise what the phase is doing.
pub open spec fn github_status_spec(c: GithubCursorView, rl: Option<RateLimitInfo>, now: int) -> Seq<char> {
    if rl is Some && rl->0.remaining < 100 {
        let r = rl->0;
        let m = whole_minutes(r.reset_at - now);
        "Rate limited — only "@ + dec_int(r.remaining as int) + " API calls remaining, resets in "@
            + dec_int(
            if m < 1 {
                1
            } else {
                m
            },
        ) + "m"@
    } else if raw_phase(c) == "TeamRepos"@ {
        "Fetching PRs updated since "@ + since_spec(text_or(c.watermark, ""@)) + " from "@ + match current_repo_spec(c) {
            Some(r) => r,
            None => "unknown"@,
        } + " ("@ + dec(repo_index_of(c) + 1) + "/"@ + dec(repos_len(c)) + ")"@
    } else if raw_phase(c) == "MemberSearch"@ {
        let idx = user_index_of(c);
        let total = users_len(c);
        let end = if idx + 5 < total {
            idx + 5
        } else {
            total
        };
        let first = match c.search_users {
            Some(v) => if idx < v@.len() {
                text_or(v@[idx as int], "unknown"@)
            } else {
                "unknown"@
            },
            None => "unknown"@,
        };
        if end - idx > 1 {
            "Searching cross-repo PRs for "@ + first + " + "@ + dec((end - idx - 1) as nat) + " others ("@
                + dec(end as nat) + "/"@ + dec(total) + ")"@
        } else {
            "Searching cross-repo PRs for "@ + first + " ("@ + dec(end as nat) + "/"@ + dec(total) + ")"@
        }
    } else {
        "Starting ingestion"@
    }
}

/// The cursor is one the report can describe: unless the status message
/// reports rate-limit pressure, the index of the phase being described
/// leaves room for its arithmetic (the repository index can be counted one
/// further, the user index lies within the users).
pub open spec fn github_cursor_ok(c: GithubCursorView, rl: Option<RateLimitInfo>) -> bool {
    !(rl matches Some(r) && r.remaining < 100) ==> {
        &&& (raw_phase(c) == "TeamRepos"@ ==> repo_index_of(c) < u64::MAX)
        &&& (raw_phase(c) == "MemberSearch"@ ==> user_index_of(c) <= users_len(c))
    }
}

fn text_or_exec(o: &Option<String>, d: &str) -> (r: String)
    ensures
        r@ == text_or(*o, d@),
{
    match o {
        Some(s) => s.clone(),
        None => owned(d),
    }
}

fn since_exec(watermark: &str) -> (r: String)
    ensures
        r@ == since_spec(watermark@),
{
    if watermark.is_empty() {
        return owned("all time");
    }
    let v = to_chars(watermark);
    proof {
        lemma_first_index(v@, 'T');
    }
    match find_char(&v, 'T') {
        Some(i) => string_from_range(&v, 0, i),
        None => owned(watermark),
    }
}

fn current_repo_exec(c: &GithubCursorView) -> (r: Option<String>)
    ensures
        match r {
            Some(x) => current_repo_spec(*c) == Some(x@),
            None => current_repo_spec(*c) is None,
        },
{
    let idx: u64 = match c.repo_index {
        Some(i) => i,
        None => 0,
    };
    match &c.repos {
        Some(v) => {
            if idx < v.len() as u64 {
                let e = &v[idx as usize];
                let mut r = text_or_exec(&e.owner, "");
                push_str(&mut r, "/");
                let repo = text_or_exec(&e.repo, "");
                push_str(&mut r, repo.as_str());
                proof {
                    reveal_strlit("");
                }
                Some(r)
            } else {
                None
            }
        },
        None => None,
    }
}

/// The status message of a GitHub ingestion at time `now`.
pub fn github_status_message(c: &GithubCursorView, rate_limit: Option<RateLimitInfo>, now: Timestamp) -> (r: String)
    requires
        github_cursor_ok(*c, rate_limit),
        in_instant_range(now as int),
        rate_limit matches Some(rl) ==> in_instant_range(rl.reset_at as int),
    ensures
        r@ == github_status_spec(*c, rate_limit, now as int),
{
    proof {
        reveal_strlit("unknown");
        reveal_strlit("TeamRepos");
        reveal_strlit("MemberSearch");
        reveal_strlit("");
    }
    if let Some(rl) = rate_limit {
        if rl.remaining < 100 {
            let delta: i128 = rl.reset_at - now;
            let m: i128 = if delta >= 0 {
                delta / 60_000_000_000
            } else {
                -((-delta) / 60_000_000_000)
            };
            let m: i128 = if m < 1 {
                1
            } else {
                m
            };
            assert(m <= 1_000_000_000_000_000_000) by (nonlinear_arith)
                requires
                    m == 1 || (0 <= delta && m == delta / 60_000_000_000),
                    delta < 2_000_000_000_000_000_000_000_000_000,
            ;
            let mut s = owned("Rate limited — only ");
            push_i64(&mut s, rl.remaining as i64);
            push_str(&mut s, " API calls remaining, resets in ");
            push_i64(&mut s, m as i64);
            push_str(&mut s, "m");
            return s;
        }
    }
    let phase = text_or_exec(&c.phase, "unknown");
    if str_eq(phase.as_str(), "TeamRepos") {
        let wm = text_or_exec(&c.watermark, "");
        let since = since_exec(wm.as_str());
        let current = match current_repo_exec(c) {
            Some(r) => r,
            None => owned("unknown"),
        };
        let idx: u64 = match c.repo_index {
            Some(i) => i,
            None => 0,
        };
        let total: u64 = match &c.repos {
            Some(v) => v.len() as u64,
            None => 0,
        };
        let mut s = owned("Fetching PRs updated since ");
        push_str(&mut s, since.as_str());
        push_str(&mut s, " from ");
        push_str(&mut s, current.as_str());
        push_str(&mut s, " (");
        push_u64(&mut s, idx + 1);
        push_str(&mut s, "/");
        push_u64(&mut s, total);
        push_str(&mut s, ")");
        s
    } else if str_eq(phase.as_str(), "MemberSearch") {
        let idx: u64 = match c.search_user_index {
            Some(i) => i,
            None => 0,
        };
        let total: u64 = match &c.search_users {
            Some(v) => v.len() as u64,
            None => 0,
        };
        let end: u64 = if total - idx > 5 {
            idx + 5
        } else {
            total
        };
        let first = match &c.search_users {
            Some(v) => if idx < v.len() as u64 {
                text_or_exec(&v[idx as usize], "unknown")
            } else {
                owned("unknown")
            },
            None => owned("unknown"),
        };
        let mut s = owned("Searching cross-repo PRs for ");
        push_str(&mut s, first.as_str());
        if end - idx > 1 {
            push_str(&mut s, " + ");
            push_u64(&mut s, end - idx - 1);
            push_str(&mut s, " others (");
        } else {
            push_str(&mut s, " (");
        }
        push_u64(&mut s, end);
        push_str(&mut s, "/");
        push_u64(&mut s, total);
        push_str(&mut s, ")");
        s
    } else {
        owned("Starting ingestion")
    }
}

/// The progress report of a GitHub ingestion at time `now`: the phase,
/// the counters, the phase's position, the rate limit, and the status
/// message.
pub fn build_github_progress(
    c: &GithubCursorView,
    tracker: &GithubProgressTracker,
    rate_limit: Option<RateLimitInfo>,
    now: Timestamp,
) -> (r: GithubProgress)
    requires
        github_cursor_ok(*c, rate_limit),
        in_instant_range(now as int),
        rate_limit matches Some(rl) ==> in_instant_range(rl.reset_at as int),
    ensures
        r.phase@ == phase_label(raw_phase(*c)),
        r.prs_fetched == tracker.prs_fetched,
        r.reviews_fetched == tracker.reviews_fetched,
        r.identities_skipped == tracker.identities_skipped,
        raw_phase(*c) == "TeamRepos"@ ==> {
            &&& r.repos_total == Some(repos_len(*c) as u64)
            &&& r.repos_completed == Some(repo_index_of(*c) as u64)
            &&& match r.current_repo {
                Some(x) => current_repo_spec(*c) == Some(x@),
                None => current_repo_spec(*c) is None,
            }
        },
        raw_phase(*c) != "TeamRepos"@ ==> r.repos_total is None && r.repos_completed is None
            && r.current_repo is None,
        raw_phase(*c) == "MemberSearch"@ ==> r.search_users_total == Some(users_len(*c) as u64)
            && r.search_users_completed == Some(user_index_of(*c) as u64),
        raw_phase(*c) != "MemberSearch"@ ==> r.search_users_total is None && r.search_users_completed is None,
        r.rate_limit_remaining == match rate_limit {
            Some(rl) => Some(rl.remaining),
            None => None::<i32>,
        },
        r.rate_limit_limit == match rate_limit {
            Some(rl) => Some(rl.limit),
            None => None::<i32>,
        },
        r.status_message@ == github_status_spec(*c, rate_limit, now as int),
{
    proof {
        reveal_strlit("unknown");
        reveal_strlit("TeamRepos");
        reveal_strlit("MemberSearch");
    }
    let raw = text_or_exec(&c.phase, "unknown");
    let phase = if str_eq(raw.as_str(), "TeamRepos") {
        owned("team_repos")
    } else if str_eq(raw.as_str(), "MemberSearch") {
        owned("member_search")
    } else {
        raw.clone()
    };
    let team = str_eq(raw.as_str(), "TeamRepos");
    let member = str_eq(raw.as_str(), "MemberSearch");
    let repos_total: Option<u64> = if team {
        Some(
            match &c.repos {
                Some(v) => v.len() as u64,
                None => 0,
            },
        )
    } else {
        None
    };
    let repos_completed: Option<u64> = if team {
        Some(
            match c.repo_index {
                Some(i) => i,
                None => 0,
            },
        )
    } else {
        None
    };
    let current_repo = if team {
        current_repo_exec(c)
    } else {
        None
    };
    let search_users_total: Option<u64> = if member {
        Some(
            match &c.search_users {
                Some(v) => v.len() as u64,
                None => 0,
            },
        )
    } else {
        None
    };
    let search_users_completed: Option<u64> = if member {
        Some(
            match c.search_user_index {
                Some(i) => i,
                None => 0,
            },
        )
    } else {
        None
    };
    GithubProgress {
        phase,
        prs_fetched: tracker.prs_fetched,
        reviews_fetched: tracker.reviews_fetched,
        identities_skipped: tracker.identities_skipped,
        repos_total,
        repos_completed,
        current_repo,
        search_users_total,
        search_users_completed,
        rate_limit_remaining: match rate_limit {
            Some(rl) => Some(rl.remaining),
            None => None,
        },
        rate_limit_limit: match rate_limit {
            Some(rl) => Some(rl.limit),
            None => None,
        },
        status_message: github_status_message(c, rate_limit, now),
    }
}

/// The progress report of a GitHub ingestion, at the current time.
pub fn build_progress_json(c: &GithubCursorView, tracker: &GithubProgressTracker, rate_limit: Option<RateLimitInfo>) -> (r: GithubProgress)
    requires
        github_cursor_ok(*c, rate_limit),
        rate_limit matches Some(rl) ==> in_instant_range(rl.reset_at as int),
    ensures
        r.phase@ == phase_label(raw_phase(*c)),
        r.prs_fetched == tracker.prs_fetched,
        r.reviews_fetched == tracker.reviews_fetched,
        r.identities_skipped == tracker.identities_skipped,
        raw_phase(*c) == "TeamRepos"@ ==> {
            &&& r.repos_total == Some(repos_len(*c) as u64)
            &&& r.repos_completed == Some(repo_index_of(*c) as u64)
            &&& match r.current_repo {
                Some(x) => current_repo_spec(*c) == Some(x@),
                None => current_repo_spec(*c) is None,
            }
        },
        raw_phase(*c) != "TeamRepos"@ ==> r.repos_total is None && r.repos_completed is None
            && r.current_repo is None,
        raw_phase(*c) == "MemberSearch"@ ==> r.search_users_total == Some(users_len(*c) as u64)
            && r.search_users_completed == Some(user_index_of(*c) as u64),
        raw_phase(*c) != "MemberSearch"@ ==> r.search_users_total is None && r.search_users_completed is None,
        r.rate_limit_remaining == match rate_limit {
            Some(rl) => Some(rl.remaining),
            None => None::<i32>,
        },
        r.rate_limit_limit == match rate_limit {
            Some(rl) => Some(rl.limit),
            None => None::<i32>,
        },
        exists|now: int| in_instant_range(now) && r.status_message@ == github_status_spec(*c, rate_limit, now),
{
    build_github_progress(c, tracker, rate_limit, now_utc())
}

// ---------------------------------------------------------------------------
// Jira progress report
// ---------------------------------------------------------------------------

/// What the Jira progress report reads from a serialised cursor.
#[derive(Debug, Clone)]
pub struct JiraCursorView {
    /// `projects`, each entry a key when it is a string.
    pub projects: Option<Vec<Option<String>>>,
    pub project_index: Option<u64>,
    /// Length of `failed_items`, when it is an array.
    pub failed_items: Option<u64>,
}

/// A Jira progress report.
#[derive(Debug, Clone)]
pub struct JiraProgress {
    pub phase: String,
    pub tickets_fetched: u32,
    pub projects_total: u64,
    pub projects_completed: u64,
    pub current_project: Option<String>,
    pub failed_items: u64,
    pub status_message: String,
    pub rate_limit_remaining: Option<i32>,
    pub rate_limit_limit: Option<i32>,
}

pub open spec fn project_index_of(c: JiraCursorView) -> nat {
    match c.project_index {
        Some(i) => i as nat,
        None => 0,
    }
}

pub open spec fn projects_len(c: JiraCursorView) -> nat {
    match c.projects {
        Some(v) => v@.len(),
        None => 0,
    }
}

/// The project being fetched: the key at the cursor's index.
pub open spec fn current_project_spec(c: JiraCursorView) -> Option<Seq<char>> {
    match c.projects {
        Some(v) => if project_index_of(c) < v@.len() {
            match v@[project_index_of(c) as int] {
                Some(p) => Some(p@),
                None => None,
            }
        } else {
            None
        },
        None => None,
    }
}

pub open spec fn jira_status_spec(c: JiraCursorView, tickets: u32) -> Seq<char> {
    match current_project_spec(c) {
        Some(p) => "Fetching Jira issues from "@ + p + " ("@ + dec(project_index_of(c) + 1) + "/"@ + dec(
            projects_len(c),
        ) + ", "@ + dec(tickets as nat) + " so far)"@,
        None => if projects_len(c) > 0 {
            "Jira ingestion complete ("@ + dec(tickets as nat) + " tickets)"@
        } else {
            "Fetching Jira issues ("@ + dec(tickets as nat) + " so far)"@
        },
    }
}

fn current_project_exec(c: &JiraCursorView) -> (r: Option<String>)
    ensures
        match r {
            Some(x) => current_project_spec(*c) == Some(x@),
            None => current_project_spec(*c) is None,
        },
{
    let idx: u64 = match c.project_index {
        Some(i) => i,
        None => 0,
    };
    match &c.projects {
        Some(v) => if idx < v.len() as u64 {
            match &v[idx as usize] {
                Some(p) => Some(p.clone()),
                None => None,
            }
        } else {
            None
        },
        None => None,
    }
}

/// The progress report of a Jira ingestion: the project being fetched
/// (phase `project:{key}`), or `complete` once the index is past the
/// projects.
pub fn build_jira_progress(c: &JiraCursorView, tickets_fetched: u32, rate_limit: Option<RateLimitInfo>) -> (r: JiraProgress)
    ensures
        r.phase@ == match current_project_spec(*c) {
            Some(p) => "project:"@ + p,
            None => "complete"@,
        },
        r.tickets_fetched == tickets_fetched,
        r.projects_total == projects_len(*c),
        r.projects_completed == project_index_of(*c),
        match r.current_project {
            Some(x) => current_project_spec(*c) == Some(x@),
            None => current_project_spec(*c) is None,
        },
        r.failed_items == match c.failed_items {
            Some(n) => n,
            None => 0,
        },
        r.status_message@ == jira_status_spec(*c, tickets_fetched),
        r.rate_limit_remaining == match rate_limit {
            Some(rl) => Some(rl.remaining),
            None => None::<i32>,
        },
        r.rate_limit_limit == match rate_limit {
            Some(rl) => Some(rl.limit),
            None => None::<i32>,
        },
{
    let idx: u64 = match c.project_index {
        Some(i) => i,
        None => 0,
    };
    let total: u64 = match &c.projects {
        Some(v) => v.len() as u64,
        None => 0,
    };
    let current = current_project_exec(c);
    let (phase, status_message) = match &current {
        Some(p) => {
            let mut phase = owned("project:");
            push_str(&mut phase, p.as_str());
            let mut m = owned("Fetching Jira issues from ");
            push_str(&mut m, p.as_str());
            push_str(&mut m, " (");
            assert(idx < total);
            push_u64(&mut m, idx + 1);
            push_str(&mut m, "/");
            push_u64(&mut m, total);
            push_str(&mut m, ", ");
            push_u64(&mut m, tickets_fetched as u64);
            push_str(&mut m, " so far)");
            (phase, m)
        },
        None => {
            let m = if total > 0 {
                let mut m = owned("Jira ingestion complete (");
                push_u64(&mut m, tickets_fetched as u64);
                push_str(&mut m, " tickets)");
                m
            } else {
                let mut m = owned("Fetching Jira issues (");
                push_u64(&mut m, tickets_fetched as u64);
                push_str(&mut m, " so far)");
                m
            };
            (owned("complete"), m)
        },
    };
    JiraProgress {
        phase,
        tickets_fetched,
        projects_total: total,
        projects_completed: idx,
        current_project: current,
        failed_items: match c.failed_items {
            Some(n) => n,
            None => 0,
        },
        status_message,
        rate_limit_remaining: match rate_limit {
            Some(rl) => Some(rl.remaining),
            None => None,
        },
        rate_limit_limit: match rate_limit {
            Some(rl) => Some(rl.limit),
            None => None,
        },
    }
}

// ---------------------------------------------------------------------------
// Discourse progress and final reports
// ---------------------------------------------------------------------------

/// Progress counters of a Discourse ingestion.
#[derive(Debug, Clone, Copy, PartialEq, Eq, Structural)]
pub struct DiscourseProgressTracker {
    pub topics_fetched: u32,
}

impl DiscourseProgressTracker {
    pub fn new() -> (r: DiscourseProgressTracker)
        ensures
            r.topics_fetched == 0,
    {
        DiscourseProgressTracker { topics_fetched: 0 }
    }

    /// Counts every item of a fetched batch (their number taken modulo
    /// 2^32, as `as u32` does).
    pub fn count_batch(&mut self, items: &Vec<ContributionInput>)
        requires
            old(self).topics_fetched + items@.len() % 0x1_0000_0000 <= u32::MAX,
        ensures
            final(self).topics_fetched == old(self).topics_fetched + items@.len() % 0x1_0000_0000,
    {
        let n: u64 = items.len() as u64 % 0x1_0000_0000;
        self.topics_fetched = self.topics_fetched + n as u32;
    }
}

/// A Discourse progress report.
#[derive(Debug, Clone)]
pub struct DiscourseProgress {
    /// `topic_scan`.
    pub phase: String,
    pub topics_fetched: u32,
    pub status_message: String,
    pub rate_limit_remaining: Option<i32>,
    pub rate_limit_limit: Option<i32>,
}

/// The progress report of a Discourse ingestion.
pub fn build_discourse_progress(topics_fetched: u32, rate_limit: Option<RateLimitInfo>) -> (r: DiscourseProgress)
    ensures
        r.phase@ == "topic_scan"@,
        r.topics_fetched == topics_fetched,
        r.status_message@ == "Fetching Discourse topics ("@ + dec(topics_fetched as nat) + " items so far)"@,
        r.rate_limit_remaining == match rate_limit {
            Some(rl) => Some(rl.remaining),
            None => None::<i32>,
        },
        r.rate_limit_limit == match rate_limit {
            Some(rl) => Some(rl.limit),
            None => None::<i32>,
        },
{
    let mut m = owned("Fetching Discourse topics (");
    push_u64(&mut m, topics_fetched as u64);
    push_str(&mut m, " items so far)");
    DiscourseProgress {
        phase: owned("topic_scan"),
        topics_fetched,
        status_message: m,
        rate_limit_remaining: match rate_limit {
            Some(rl) => Some(rl.remaining),
            None => None,
        },
        rate_limit_limit: match rate_limit {
            Some(rl) => Some(rl.limit),
            None => None,
        },
    }
}

/// The report of a finished ingestion: phase `complete` and the counters.
#[derive(Debug, Clone, PartialEq, Eq)]
pub struct FinalProgress {
    pub phase: String,
    /// `(name, value)` of each counter, in the tracker's order.
    pub counters: Vec<(&'static str, u32)>,
}

impl GithubProgressTracker {
    /// `complete`, with the pull requests, reviews and skipped identities.
    pub fn build_final_progress(&self) -> (r: FinalProgress)
        ensures
            r.phase@ == "complete"@,
            r.counters@.len() == 3,
            r.counters@[0].0@ == "prs_fetched"@ && r.counters@[0].1 == self.prs_fetched,
            r.counters@[1].0@ == "reviews_fetched"@ && r.counters@[1].1 == self.reviews_fetched,
            r.counters@[2].0@ == "identities_skipped"@ && r.counters@[2].1 == self.identities_skipped,
    {
        let mut counters: Vec<(&'static str, u32)> = Vec::new();
        counters.push(("prs_fetched", self.prs_fetched));
        counters.push(("reviews_fetched", self.reviews_fetched));
        counters.push(("identities_skipped", self.identities_skipped));
        FinalProgress { phase: owned("complete"), counters }
    }
}

impl JiraProgressTracker {
    /// `complete`, with the tickets fetched.
    pub fn build_final_progress(&self) -> (r: FinalProgress)
        ensures
            r.phase@ == "complete"@,
            r.counters@.len() == 1,
            r.counters@[0].0@ == "tickets_fetched"@ && r.counters@[0].1 == self.tickets_fetched,
    {
        let mut counters: Vec<(&'static str, u32)> = Vec::new();
        counters.push(("tickets_fetched", self.tickets_fetched));
        FinalProgress { phase: owned("complete"), counters }
    }
}

impl DiscourseProgressTracker {
    /// `complete`, with the topics fetched.
    pub fn build_final_progress(&self) -> (r: FinalProgress)
        ensures
            r.phase@ == "complete"@,
            r.counters@.len() == 1,
            r.counters@[0].0@ == "topics_fetched"@ && r.counters@[0].1 == self.topics_fetched,
    {
        let mut counters: Vec<(&'static str, u32)> = Vec::new();
        counters.push(("topics_fetched", self.topics_fetched));
        FinalProgress { phase: owned("complete"), counters }
    }
}

impl GenericProgressTracker {
    /// `complete`, with the items fetched.
    pub fn build_final_progress(&self) -> (r: FinalProgress)
        ensures
            r.phase@ == "complete"@,
            r.counters@.len() == 1,
            r.counters@[0].0@ == "items_fetched"@ && r.counters@[0].1 == self.items,
    {
        let mut counters: Vec<(&'static str, u32)> = Vec::new();
        counters.push(("items_fetched", self.items));
        FinalProgress { phase: owned("complete"), counters }
    }
}

} // verus!
