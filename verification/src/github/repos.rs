//! Repository discovery: which repositories of an organisation's listing
//! are ingested, and the rows recorded for them.
use vstd::prelude::*;

use crate::github::team_sync::{orgs_spec, parse_orgs};
use crate::github::types::GitHubRepo;
use crate::ingestion::contribution::IngestionError;
use crate::model::{
    json_bool_field, json_string_list_field, read_json_bool_field, read_json_string_list_field,
    RepoTarget,
};
use crate::text::{owned, str_eq};

verus! {

/// A discovered repository as it is recorded.
#[derive(Debug, Clone)]
pub struct RepoRow {
    pub owner: String,
    pub repo: String,
    pub default_branch: Option<String>,
    pub language: Option<String>,
}

pub open spec fn names_view(v: Seq<String>) -> Seq<Seq<char>> {
    v.map_values(|s: String| s@)
}

/// A repository is kept unless archived repositories are excluded and it is
/// archived, or its name is among the excluded ones.
pub open spec fn repo_kept(r: GitHubRepo, exclude_archived: bool, excluded: Seq<Seq<char>>) -> bool {
    !(exclude_archived && r.archived == Some(true)) && !excluded.contains(r.name@)
}

/// The `(owner, name)` of the kept repositories of a page, in order.
pub open spec fn kept_repos(page: Seq<GitHubRepo>, exclude_archived: bool, excluded: Seq<Seq<char>>) -> Seq<
    (Seq<char>, Seq<char>),
>
    decreases page.len(),
{
    if page.len() == 0 {
        Seq::empty()
    } else {
        let before = kept_repos(page.drop_last(), exclude_archived, excluded);
        let r = page.last();
        if repo_kept(r, exclude_archived, excluded) {
            before.push((r.owner.login@, r.name@))
        } else {
            before
        }
    }
}

/// The rows of the kept repositories of a page, in order.
pub open spec fn kept_rows(page: Seq<GitHubRepo>, exclude_archived: bool, excluded: Seq<Seq<char>>) -> Seq<
    (Seq<char>, Seq<char>, Option<Seq<char>>, Option<Seq<char>>),
>
    decreases page.len(),
{
    if page.len() == 0 {
        Seq::empty()
    } else {
        let before = kept_rows(page.drop_last(), exclude_archived, excluded);
        let r = page.last();
        if repo_kept(r, exclude_archived, excluded) {
            before.push((r.owner.login@, r.name@, opt_view(r.default_branch), opt_view(r.language)))
        } else {
            before
        }
    }
}

pub open spec fn opt_view(o: Option<String>) -> Option<Seq<char>> {
    match o {
        Some(s) => Some(s@),
        None => None,
    }
}

pub open spec fn targets_view(v: Seq<RepoTarget>) -> Seq<(Seq<char>, Seq<char>)> {
    v.map_values(|t: RepoTarget| (t.owner@, t.repo@))
}

pub open spec fn rows_view(v: Seq<RepoRow>) -> Seq<(Seq<char>, Seq<char>, Option<Seq<char>>, Option<Seq<char>>)> {
    v.map_values(|r: RepoRow| (r.owner@, r.repo@, opt_view(r.default_branch), opt_view(r.language)))
}

fn opt_clone(o: &Option<String>) -> (r: Option<String>)
    ensures
        opt_view(r) == opt_view(*o),
{
    match o {
        Some(s) => Some(s.clone()),
        None => None,
    }
}

fn is_excluded(name: &String, excluded: &Vec<String>) -> (r: bool)
    ensures
        r == names_view(excluded@).contains(name@),
{
    let mut i: usize = 0;
    while i < excluded.len()
        invariant
            i <= excluded@.len(),
            forall|k: int| 0 <= k < i ==> excluded@[k]@ != name@,
        decreases excluded@.len() - i,
    {
        if str_eq(excluded[i].as_str(), name.as_str()) {
            proof {
                assert(names_view(excluded@)[i as int] == name@);
            }
            return true;
        }
        i = i + 1;
    }
    proof {
        if names_view(excluded@).contains(name@) {
            let k = choose|k: int| 0 <= k < names_view(excluded@).len() && names_view(excluded@)[k] == name@;
            assert(excluded@[k]@ == name@);
        }
    }
    false
}

/// Takes a page of an organisation's repositories: the kept ones are
/// appended to the targets to ingest and to the rows to record.
pub fn absorb_org_repos_page(
    targets: &mut Vec<RepoTarget>,
    rows: &mut Vec<RepoRow>,
    page: &Vec<GitHubRepo>,
    exclude_archived: bool,
    exclude_repos: &Vec<String>,
)
    ensures
        targets_view(final(targets)@) == targets_view(old(targets)@) + kept_repos(
            page@,
            exclude_archived,
            names_view(exclude_repos@),
        ),
        rows_view(final(rows)@) == rows_view(old(rows)@) + kept_rows(
            page@,
            exclude_archived,
            names_view(exclude_repos@),
        ),
{
    let ghost excluded = names_view(exclude_repos@);
    let ghost t0 = targets_view(targets@);
    let ghost r0 = rows_view(rows@);
    let mut i: usize = 0;
    while i < page.len()
        invariant
            i <= page@.len(),
            excluded == names_view(exclude_repos@),
            targets_view(targets@) == t0 + kept_repos(page@.take(i as int), exclude_archived, excluded),
            rows_view(rows@) == r0 + kept_rows(page@.take(i as int), exclude_archived, excluded),
        decreases page@.len() - i,
    {
        let r = &page[i];
        proof {
            assert(page@.take(i + 1).drop_last() =~= page@.take(i as int));
            assert(page@.take(i + 1).last() == *r);
        }
        let archived = match r.archived {
            Some(a) => a,
            None => false,
        };
        let skip = (exclude_archived && archived) || is_excluded(&r.name, exclude_repos);
        if !skip {
            let ghost tb = targets_view(targets@);
            let ghost rb = rows_view(rows@);
            let t = RepoTarget { owner: r.owner.login.clone(), repo: r.name.clone() };
            let row = RepoRow {
                owner: r.owner.login.clone(),
                repo: r.name.clone(),
                default_branch: opt_clone(&r.default_branch),
                language: opt_clone(&r.language),
            };
            targets.push(t);
            rows.push(row);
            proof {
                assert(targets_view(targets@) =~= tb.push((t.owner@, t.repo@)));
                assert(rows_view(rows@) =~= rb.push(
                    (row.owner@, row.repo@, opt_view(row.default_branch), opt_view(row.language)),
                ));
                assert(t0 + kept_repos(page@.take(i + 1), exclude_archived, excluded) =~= tb.push(
                    (t.owner@, t.repo@),
                ));
                assert(r0 + kept_rows(page@.take(i + 1), exclude_archived, excluded) =~= rb.push(
                    (row.owner@, row.repo@, opt_view(row.default_branch), opt_view(row.language)),
                ));
            }
        }
        i = i + 1;
    }
    proof {
        assert(page@.take(page@.len() as int) =~= page@);
    }
}

/// How a GitHub source's repositories are discovered when no team maps
/// any: its organisations, and what is left out.
#[derive(Debug, Clone)]
pub struct DiscoverySettings {
    pub orgs: Vec<String>,
    /// Leave archived repositories out (`exclude_archived`, default true).
    pub exclude_archived: bool,
    /// Names of repositories to leave out (`exclude_repos`, default none).
    pub exclude_repos: Vec<String>,
}

/// Reads a GitHub source's settings for planning: refused (a validation
/// error, `GitHub source has no orgs configured`) when it lists no
/// organisation.
pub fn discovery_settings(settings_json: &str) -> (r: Result<DiscoverySettings, IngestionError>)
    ensures
        r is Err <==> orgs_spec(settings_json@).len() == 0,
        r matches Err(e) ==> (e matches IngestionError::Validation(m) && m@
            == "GitHub source has no orgs configured"@),
        r matches Ok(s) ==> {
            &&& names_view(s.orgs@) == orgs_spec(settings_json@)
            &&& s.exclude_archived == match json_bool_field(settings_json@, "exclude_archived"@) {
                Some(b) => b,
                None => true,
            }
            &&& names_view(s.exclude_repos@) == match json_string_list_field(
                settings_json@,
                "exclude_repos"@,
            ) {
                Some(v) => v,
                None => Seq::empty(),
            }
        },
{
    let orgs = parse_orgs(settings_json);
    if orgs.len() == 0 {
        return Err(IngestionError::Validation(owned("GitHub source has no orgs configured")));
    }
    let exclude_archived = match read_json_bool_field(settings_json, "exclude_archived") {
        Some(b) => b,
        None => true,
    };
    let exclude_repos = match read_json_string_list_field(settings_json, "exclude_repos") {
        Some(v) => v,
        None => Vec::new(),
    };
    proof {
        reveal_strlit("exclude_archived");
        reveal_strlit("exclude_repos");
        assert(names_view(exclude_repos@) =~= match json_string_list_field(
            settings_json@,
            "exclude_repos"@,
        ) {
            Some(v) => v,
            None => Seq::<Seq<char>>::empty(),
        });
    }
    Ok(DiscoverySettings { orgs, exclude_archived, exclude_repos })
}

/// The repositories mapped by team sync, as targets in the same order.
pub fn mapped_targets(mapped: Vec<(String, String)>) -> (r: Vec<RepoTarget>)
    ensures
        targets_view(r@) == mapped@.map_values(|p: (String, String)| (p.0@, p.1@)),
{
    let mut out: Vec<RepoTarget> = Vec::new();
    let mut i: usize = 0;
    while i < mapped.len()
        invariant
            i <= mapped@.len(),
            out@.len() == i,
            forall|k: int| 0 <= k < i ==> (#[trigger] out@[k]).owner@ == mapped@[k].0@ && out@[k].repo@
                == mapped@[k].1@,
        decreases mapped@.len() - i,
    {
        let (owner, repo) = &mapped[i];
        out.push(RepoTarget { owner: owner.clone(), repo: repo.clone() });
        i = i + 1;
    }
    proof {
        assert(targets_view(out@) =~= mapped@.map_values(|p: (String, String)| (p.0@, p.1@)));
    }
    out
}

} // verus!
