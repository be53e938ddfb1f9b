//! The computing half of the GitHub REST client: path validation, request
//! URLs, `Link` header pagination and rate limit headers.
use vstd::prelude::*;

use crate::model::{instant_from_unix_seconds, now_utc, RateLimitInfo, Timestamp, NANOS_PER_SECOND,
    unix_seconds_representable};
use crate::text::{
    ascii_alnum, chars_have_prefix, contains_chars, find_char, has_prefix, is_ascii_alnum, owned,
    parse_i32, parse_i32_spec, parse_i64, parse_i64_spec, parse_u32, parse_u32_spec, push_range,
    push_str, push_u64, split_chars, split_spec, string_from_chars, string_from_range, to_chars,
    trim_end_len, trim_end_spec, contains_seq, first_index, lemma_first_index, lemma_split_nonempty,
    dec,
};

verus! {

/// Errors from the GitHub API client.
#[derive(Debug, Clone)]
pub enum GitHubError {
    /// Transport failure, with its message.
    Http(String),
    /// Non-success status from the API.
    Api { status: u16, body: String, rate_limit: RateLimitInfo },
    /// A path segment with characters outside the allowed set.
    InvalidPathSegment { label: String, value: String },
}

/// Characters allowed in org names, repo names and team slugs.
pub open spec fn is_path_char(c: char) -> bool {
    is_ascii_alnum(c) || c == '-' || c == '_' || c == '.'
}

/// A non-empty segment made of allowed characters only.
pub open spec fn valid_path_segment(s: Seq<char>) -> bool {
    s.len() > 0 && forall|i: int| 0 <= i < s.len() ==> is_path_char(#[trigger] s[i])
}

/// Validates that a URL path segment contains only safe characters
/// (alphanumerics, hyphens, underscores and dots), to prevent path
/// traversal or injection.
pub fn validate_path_segment(segment: &str, label: &str) -> (r: Result<(), GitHubError>)
    ensures
        r is Ok <==> valid_path_segment(segment@),
        r matches Err(GitHubError::InvalidPathSegment { label: l, value: v }) ==> l@ == label@
            && v@ == segment@,
        r matches Err(e) ==> e is InvalidPathSegment,
{
    let v = to_chars(segment);
    let mut ok = v.len() > 0;
    let mut i: usize = 0;
    while i < v.len()
        invariant
            i <= v@.len(),
            v@ == segment@,
            ok == (v@.len() > 0 && forall|k: int| 0 <= k < i ==> is_path_char(#[trigger] v@[k])),
        decreases v.len() - i,
    {
        let c = v[i];
        if !(ascii_alnum(c) || c == '-' || c == '_' || c == '.') {
            ok = false;
        }
        i = i + 1;
    }
    if ok {
        Ok(())
    } else {
        Err(GitHubError::InvalidPathSegment { label: owned(label), value: owned(segment) })
    }
}

// ---------------------------------------------------------------------------
// Link header pagination
// ---------------------------------------------------------------------------

/// The page number a query parameter names: `Some(parse)` when the parameter
/// (or the part of it after its last `?`) starts with `page=`.
pub open spec fn page_param(p: Seq<char>) -> Option<Option<u32>> {
    if has_prefix(p, "page="@) {
        Some(parse_u32_spec(p.skip(5)))
    } else if has_prefix(split_spec(p, '?').last(), "page="@) {
        Some(parse_u32_spec(split_spec(p, '?').last().skip(5)))
    } else {
        None
    }
}

/// The first page parameter among `ps`.
pub open spec fn scan_params(ps: Seq<Seq<char>>) -> Option<Option<u32>>
    decreases ps.len(),
{
    if ps.len() == 0 {
        None
    } else {
        match page_param(ps[0]) {
            Some(r) => Some(r),
            None => scan_params(ps.drop_first()),
        }
    }
}

/// What one comma-separated part of a `Link` header decides: `None` to go on
/// to the next part, `Some(r)` to answer `r`.
pub open spec fn part_outcome(part: Seq<char>) -> Option<Option<u32>> {
    if !contains_seq(part, "rel=\"next\""@) {
        None
    } else {
        match (first_index(part, '<'), first_index(part, '>')) {
            (Some(a), Some(b)) => scan_params(split_spec(part.subrange(a + 1, b), '&')),
            _ => Some(None),
        }
    }
}

/// A part whose `<` comes after its `>` cannot be sliced.
pub open spec fn part_safe(part: Seq<char>) -> bool {
    contains_seq(part, "rel=\"next\""@) ==> match (first_index(part, '<'), first_index(part, '>')) {
        (Some(a), Some(b)) => a + 1 <= b,
        _ => true,
    }
}

pub open spec fn scan_parts(parts: Seq<Seq<char>>) -> Option<u32>
    decreases parts.len(),
{
    if parts.len() == 0 {
        None
    } else {
        match part_outcome(parts[0]) {
            Some(r) => r,
            None => scan_parts(parts.drop_first()),
        }
    }
}

pub open spec fn parts_safe(parts: Seq<Seq<char>>) -> bool
    decreases parts.len(),
{
    parts.len() == 0 || (part_safe(parts[0]) && (part_outcome(parts[0]) is None ==> parts_safe(
        parts.drop_first(),
    )))
}

/// The next page a `Link` header names.
pub open spec fn next_page_of(link: Seq<char>) -> Option<u32> {
    scan_parts(split_spec(link, ','))
}

/// The header can be read without slicing out of order.
pub open spec fn next_page_readable(link: Seq<char>) -> bool {
    parts_safe(split_spec(link, ','))
}

fn parse_page_value(p: &Vec<char>, from: usize) -> (r: Option<u32>)
    requires
        from <= p@.len(),
    ensures
        r == parse_u32_spec(p@.skip(from as int)),
{
    let s = string_from_range(p, from, p.len());
    proof {
        assert(p@.subrange(from as int, p@.len() as int) =~= p@.skip(from as int));
    }
    parse_u32(s.as_str())
}

fn page_param_exec(p: &Vec<char>) -> (r: Option<Option<u32>>)
    ensures
        r == page_param(p@),
{
    let prefix = to_chars("page=");
    proof {
        reveal_strlit("page=");
    }
    if chars_have_prefix(p, &prefix) {
        return Some(parse_page_value(p, 5));
    }
    let pieces = split_chars(p, '?');
    proof {
        lemma_split_nonempty(p@, '?');
    }
    let last = &pieces[pieces.len() - 1];
    proof {
        assert(last@ == split_spec(p@, '?').last());
    }
    if chars_have_prefix(last, &prefix) {
        return Some(parse_page_value(last, 5));
    }
    None
}

/// Parses the `Link` header to extract the next page number.
///
/// GitHub's `Link` header looks like
/// `<https://api.github.com/...?page=2>; rel="next", <...>; rel="last"`.
pub fn parse_next_page(link: &str) -> (r: Option<u32>)
    requires
        next_page_readable(link@),
    ensures
        r == next_page_of(link@),
{
    let v = to_chars(link);
    let parts = split_chars(&v, ',');
    let ghost ps = parts@.map_values(|p: Vec<char>| p@);
    let rel_next = to_chars("rel=\"next\"");
    let mut k: usize = 0;
    proof {
        assert(ps.skip(0) =~= ps);
    }
    while k < parts.len()
        invariant
            k <= parts@.len(),
            ps == parts@.map_values(|p: Vec<char>| p@),
            ps == split_spec(link@, ','),
            rel_next@ == "rel=\"next\""@,
            parts_safe(ps.skip(k as int)),
            scan_parts(ps) == scan_parts(ps.skip(k as int)),
        decreases parts.len() - k,
    {
        let part = &parts[k];
        proof {
            assert(ps.skip(k as int)[0] == part@);
            assert(ps.skip(k as int).drop_first() =~= ps.skip(k + 1));
        }
        if contains_chars(part, &rel_next) {
            let a = find_char(part, '<');
            let b = find_char(part, '>');
            match (a, b) {
                (Some(a), Some(b)) => {
                    proof {
                        lemma_first_index(part@, '<');
                        lemma_first_index(part@, '>');
                    }
                    let url = string_from_range(part, a + 1, b);
                    let url_chars = to_chars(url.as_str());
                    let params = split_chars(&url_chars, '&');
                    let ghost qs = params@.map_values(|p: Vec<char>| p@);
                    let mut j: usize = 0;
                    proof {
                        assert(qs.skip(0) =~= qs);
                        assert(url_chars@ == part@.subrange(a + 1, b as int));
                        assert(qs == split_spec(part@.subrange(a + 1, b as int), '&'));
                        assert(part_outcome(part@) == scan_params(qs));
                    }
                    #[verifier::loop_isolation(false)]
                    while j < params.len()
                        invariant
                            j <= params@.len(),
                            qs == params@.map_values(|p: Vec<char>| p@),
                            scan_params(qs) == scan_params(qs.skip(j as int)),
                        decreases params.len() - j,
                    {
                        proof {
                            assert(qs.skip(j as int)[0] == params@[j as int]@);
                            assert(qs.skip(j as int).drop_first() =~= qs.skip(j + 1));
                        }
                        match page_param_exec(&params[j]) {
                            Some(r) => {
                                return r;
                            },
                            None => {},
                        }
                        j = j + 1;
                    }
                },
                _ => {
                    return None;
                },
            }
        }
        k = k + 1;
    }
    None
}

// ---------------------------------------------------------------------------
// Rate limit headers
// ---------------------------------------------------------------------------

/// Rate limit read from header values: missing or malformed counts read as
/// 0, and the reset epoch (0 when missing or malformed) becomes an instant,
/// or `now` when `time` cannot represent it.
pub open spec fn rate_limit_of(
    remaining: Option<Seq<char>>,
    limit: Option<Seq<char>>,
    reset: Option<Seq<char>>,
    now: Timestamp,
) -> RateLimitInfo {
    let reset_epoch: int = match reset {
        Some(s) => match parse_i64_spec(s) {
            Some(v) => v as int,
            None => 0,
        },
        None => 0,
    };
    RateLimitInfo {
        remaining: match remaining {
            Some(s) => match parse_i32_spec(s) {
                Some(v) => v,
                None => 0,
            },
            None => 0,
        },
        limit: match limit {
            Some(s) => match parse_i32_spec(s) {
                Some(v) => v,
                None => 0,
            },
            None => 0,
        },
        reset_at: if unix_seconds_representable(reset_epoch) {
            (reset_epoch * NANOS_PER_SECOND) as i128
        } else {
            now
        },
    }
}

pub open spec fn opt_view(o: Option<&str>) -> Option<Seq<char>> {
    match o {
        Some(s) => Some(s@),
        None => None,
    }
}

fn header_i32(v: Option<&str>) -> (r: i32)
    ensures
        r == match opt_view(v) {
            Some(s) => match parse_i32_spec(s) {
                Some(x) => x,
                None => 0,
            },
            None => 0,
        },
{
    match v {
        Some(s) => match parse_i32(s) {
            Some(x) => x,
            None => 0,
        },
        None => 0,
    }
}

/// Rate limit info from the `x-ratelimit-remaining`, `x-ratelimit-limit`
/// and `x-ratelimit-reset` header values (each absent when the header is
/// missing or not visible ASCII), given the current time.
pub fn rate_limit_from_headers(
    remaining: Option<&str>,
    limit: Option<&str>,
    reset: Option<&str>,
    now: Timestamp,
) -> (r: RateLimitInfo)
    ensures
        r == rate_limit_of(opt_view(remaining), opt_view(limit), opt_view(reset), now),
{
    let reset_epoch: i64 = match reset {
        Some(s) => match parse_i64(s) {
            Some(x) => x,
            None => 0,
        },
        None => 0,
    };
    let reset_at = match instant_from_unix_seconds(reset_epoch) {
        Some(t) => t,
        None => now,
    };
    RateLimitInfo { remaining: header_i32(remaining), limit: header_i32(limit), reset_at }
}

/// Parses GitHub rate limit info from response header values; an
/// unrepresentable reset epoch falls back to the current time.
pub fn parse_rate_limit_headers(
    remaining: Option<&str>,
    limit: Option<&str>,
    reset: Option<&str>,
) -> (r: RateLimitInfo)
    ensures
        exists|now: Timestamp|
            r == rate_limit_of(opt_view(remaining), opt_view(limit), opt_view(reset), now),
{
    let now = now_utc();
    rate_limit_from_headers(remaining, limit, reset, now)
}

// ---------------------------------------------------------------------------
// Request URLs
// ---------------------------------------------------------------------------

/// A base URL without its trailing slashes.
pub fn trim_base_url(base_url: &str) -> (r: String)
    ensures
        r@ == trim_end_spec(base_url@, '/'),
{
    let v = to_chars(base_url);
    let n = trim_end_len(&v, '/');
    string_from_range(&v, 0, n)
}

/// Parameters for listing pull requests.
pub struct ListPullsParams<'a> {
    pub owner: &'a str,
    pub repo: &'a str,
    pub state: &'a str,
    pub page: u32,
    pub per_page: u32,
    pub since: Option<&'a str>,
    pub if_none_match: Option<&'a str>,
}

/// URL of the pull request listing, sorted by `updated` ascending.
pub open spec fn list_pulls_url_of(
    base: Seq<char>,
    owner: Seq<char>,
    repo: Seq<char>,
    state: Seq<char>,
    per_page: u32,
    page: u32,
    since: Option<Seq<char>>,
) -> Seq<char> {
    base + "/repos/"@ + owner + "/"@ + repo + "/pulls?state="@ + state
        + "&sort=updated&direction=asc&per_page="@ + dec(per_page as nat) + "&page="@ + dec(
        page as nat,
    ) + match since {
        Some(s) => "&since="@ + s,
        None => seq![],
    }
}

/// The request URL for listing pull requests, after validating the owner
/// and repository names.
pub fn list_pulls_url(base_url: &str, params: &ListPullsParams) -> (r: Result<String, GitHubError>)
    ensures
        r is Ok <==> valid_path_segment(params.owner@) && valid_path_segment(params.repo@),
        r matches Ok(u) ==> u@ == list_pulls_url_of(
            base_url@,
            params.owner@,
            params.repo@,
            params.state@,
            params.per_page,
            params.page,
            opt_view(params.since),
        ),
{
    validate_path_segment(params.owner, "owner")?;
    validate_path_segment(params.repo, "repo")?;
    let mut url = owned(base_url);
    push_str(&mut url, "/repos/");
    push_str(&mut url, params.owner);
    push_str(&mut url, "/");
    push_str(&mut url, params.repo);
    push_str(&mut url, "/pulls?state=");
    push_str(&mut url, params.state);
    push_str(&mut url, "&sort=updated&direction=asc&per_page=");
    push_u64(&mut url, params.per_page as u64);
    push_str(&mut url, "&page=");
    push_u64(&mut url, params.page as u64);
    match params.since {
        Some(since) => {
            push_str(&mut url, "&since=");
            push_str(&mut url, since);
        },
        None => {},
    }
    proof {
        let expected = list_pulls_url_of(
            base_url@,
            params.owner@,
            params.repo@,
            params.state@,
            params.per_page,
            params.page,
            opt_view(params.since),
        );
        assert(url@ =~= expected);
    }
    Ok(url)
}

/// `{base}/repos/{owner}/{repo}/pulls/{number}/reviews?per_page=100`.
pub fn list_reviews_url(base_url: &str, owner: &str, repo: &str, pr_number: u32) -> (r: Result<
    String,
    GitHubError,
>)
    ensures
        r is Ok <==> valid_path_segment(owner@) && valid_path_segment(repo@),
        r matches Ok(u) ==> u@ == base_url@ + "/repos/"@ + owner@ + "/"@ + repo@ + "/pulls/"@ + dec(
            pr_number as nat,
        ) + "/reviews?per_page=100"@,
{
    validate_path_segment(owner, "owner")?;
    validate_path_segment(repo, "repo")?;
    let mut url = owned(base_url);
    push_str(&mut url, "/repos/");
    push_str(&mut url, owner);
    push_str(&mut url, "/");
    push_str(&mut url, repo);
    push_str(&mut url, "/pulls/");
    push_u64(&mut url, pr_number as u64);
    push_str(&mut url, "/reviews?per_page=100");
    proof {
        assert(url@ =~= base_url@ + "/repos/"@ + owner@ + "/"@ + repo@ + "/pulls/"@ + dec(
            pr_number as nat,
        ) + "/reviews?per_page=100"@);
    }
    Ok(url)
}

/// `{base}/repos/{owner}/{repo}/pulls/{number}/files?per_page=100&page={page}`.
pub fn list_pr_files_url(base_url: &str, owner: &str, repo: &str, pr_number: u32, page: u32) -> (r:
    Result<String, GitHubError>)
    ensures
        r is Ok <==> valid_path_segment(owner@) && valid_path_segment(repo@),
        r matches Ok(u) ==> u@ == base_url@ + "/repos/"@ + owner@ + "/"@ + repo@ + "/pulls/"@ + dec(
            pr_number as nat,
        ) + "/files?per_page=100&page="@ + dec(page as nat),
{
    validate_path_segment(owner, "owner")?;
    validate_path_segment(repo, "repo")?;
    let mut url = owned(base_url);
    push_str(&mut url, "/repos/");
    push_str(&mut url, owner);
    push_str(&mut url, "/");
    push_str(&mut url, repo);
    push_str(&mut url, "/pulls/");
    push_u64(&mut url, pr_number as u64);
    push_str(&mut url, "/files?per_page=100&page=");
    push_u64(&mut url, page as u64);
    proof {
        assert(url@ =~= base_url@ + "/repos/"@ + owner@ + "/"@ + repo@ + "/pulls/"@ + dec(
            pr_number as nat,
        ) + "/files?per_page=100&page="@ + dec(page as nat));
    }
    Ok(url)
}

/// `{base}/orgs/{org}/repos?type=all&sort=updated&per_page={per_page}&page={page}`.
pub fn list_org_repos_url(base_url: &str, org: &str, page: u32, per_page: u32) -> (r: Result<
    String,
    GitHubError,
>)
    ensures
        r is Ok <==> valid_path_segment(org@),
        r matches Ok(u) ==> u@ == base_url@ + "/orgs/"@ + org@ + "/repos?type=all&sort=updated&per_page="@
            + dec(per_page as nat) + "&page="@ + dec(page as nat),
{
    validate_path_segment(org, "org")?;
    let mut url = owned(base_url);
    push_str(&mut url, "/orgs/");
    push_str(&mut url, org);
    push_str(&mut url, "/repos?type=all&sort=updated&per_page=");
    push_u64(&mut url, per_page as u64);
    push_str(&mut url, "&page=");
    push_u64(&mut url, page as u64);
    proof {
        assert(url@ =~= base_url@ + "/orgs/"@ + org@ + "/repos?type=all&sort=updated&per_page="@ + dec(
            per_page as nat,
        ) + "&page="@ + dec(page as nat));
    }
    Ok(url)
}

/// `{base}/orgs/{org}/teams?per_page=100&page={page}`.
pub fn list_org_teams_url(base_url: &str, org: &str, page: u32) -> (r: Result<String, GitHubError>)
    ensures
        r is Ok <==> valid_path_segment(org@),
        r matches Ok(u) ==> u@ == base_url@ + "/orgs/"@ + org@ + "/teams?per_page=100&page="@ + dec(
            page as nat,
        ),
{
    validate_path_segment(org, "org")?;
    let mut url = owned(base_url);
    push_str(&mut url, "/orgs/");
    push_str(&mut url, org);
    push_str(&mut url, "/teams?per_page=100&page=");
    push_u64(&mut url, page as u64);
    proof {
        assert(url@ =~= base_url@ + "/orgs/"@ + org@ + "/teams?per_page=100&page="@ + dec(
            page as nat,
        ));
    }
    Ok(url)
}

/// `{base}/orgs/{org}/teams/{team_slug}/{what}?per_page=100&page={page}`.
fn team_list_url(base_url: &str, org: &str, team_slug: &str, what: &str, page: u32) -> (r: Result<
    String,
    GitHubError,
>)
    ensures
        r is Ok <==> valid_path_segment(org@) && valid_path_segment(team_slug@),
        r matches Ok(u) ==> u@ == base_url@ + "/orgs/"@ + org@ + "/teams/"@ + team_slug@ + "/"@
            + what@ + "?per_page=100&page="@ + dec(page as nat),
{
    validate_path_segment(org, "org")?;
    validate_path_segment(team_slug, "team_slug")?;
    let mut url = owned(base_url);
    push_str(&mut url, "/orgs/");
    push_str(&mut url, org);
    push_str(&mut url, "/teams/");
    push_str(&mut url, team_slug);
    push_str(&mut url, "/");
    push_str(&mut url, what);
    push_str(&mut url, "?per_page=100&page=");
    push_u64(&mut url, page as u64);
    proof {
        assert(url@ =~= base_url@ + "/orgs/"@ + org@ + "/teams/"@ + team_slug@ + "/"@ + what@
            + "?per_page=100&page="@ + dec(page as nat));
    }
    Ok(url)
}

/// URL listing the members of a team.
pub fn list_team_members_url(base_url: &str, org: &str, team_slug: &str, page: u32) -> (r: Result<
    String,
    GitHubError,
>)
    ensures
        r is Ok <==> valid_path_segment(org@) && valid_path_segment(team_slug@),
        r matches Ok(u) ==> u@ == base_url@ + "/orgs/"@ + org@ + "/teams/"@ + team_slug@ + "/"@
            + "members"@ + "?per_page=100&page="@ + dec(page as nat),
{
    team_list_url(base_url, org, team_slug, "members", page)
}

/// URL listing the repositories of a team.
pub fn list_team_repos_url(base_url: &str, org: &str, team_slug: &str, page: u32) -> (r: Result<
    String,
    GitHubError,
>)
    ensures
        r is Ok <==> valid_path_segment(org@) && valid_path_segment(team_slug@),
        r matches Ok(u) ==> u@ == base_url@ + "/orgs/"@ + org@ + "/teams/"@ + team_slug@ + "/"@
            + "repos"@ + "?per_page=100&page="@ + dec(page as nat),
{
    team_list_url(base_url, org, team_slug, "repos", page)
}

} // verus!
