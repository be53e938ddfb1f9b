//! Team sync: which organisations a source syncs, the API it talks to, and
//! how the pages of teams, members and repositories are gathered.
use vstd::prelude::*;

use crate::discourse::client::{to_lowercase, unicode_lowercase};
use crate::github::types::{GitHubTeam, GitHubTeamRepo, GitHubUser};
use crate::model::{
    json_string_field, json_string_list_field, read_json_string_field, read_json_string_list_field,
};
use crate::text::owned;

verus! {

/// The API base URL used when a source does not configure one.
pub const DEFAULT_API_BASE_URL: &'static str = "https://api.github.com";

/// Why a source without organisations cannot be synced.
pub const NO_ORGS_MESSAGE: &'static str = "no orgs configured for this source";

pub open spec fn names_view(v: Seq<String>) -> Seq<Seq<char>> {
    v.map_values(|s: String| s@)
}

/// The organisations of a source's settings: its `orgs` list of strings,
/// empty when it is missing or not such a list.
pub open spec fn orgs_spec(settings_json: Seq<char>) -> Seq<Seq<char>> {
    match json_string_list_field(settings_json, "orgs"@) {
        Some(v) => v,
        None => Seq::empty(),
    }
}

/// The API base URL of a source's settings.
pub open spec fn api_base_spec(settings_json: Seq<char>) -> Seq<char> {
    match json_string_field(settings_json, "base_url"@) {
        Some(u) => u,
        None => "https://api.github.com"@,
    }
}

/// The organisations listed in a source's settings.
pub fn parse_orgs(settings_json: &str) -> (r: Vec<String>)
    ensures
        names_view(r@) == orgs_spec(settings_json@),
{
    let r = match read_json_string_list_field(settings_json, "orgs") {
        Some(v) => v,
        None => Vec::new(),
    };
    proof {
        reveal_strlit("orgs");
        assert(names_view(r@) =~= orgs_spec(settings_json@));
    }
    r
}

/// What a team sync runs on.
#[derive(Debug, Clone)]
pub struct TeamSyncConfig {
    pub orgs: Vec<String>,
    pub base_url: String,
}

/// Reads a source's settings for a team sync: refused with
/// `no orgs configured for this source` when it lists no organisation.
pub fn team_sync_config(settings_json: &str) -> (r: Result<TeamSyncConfig, String>)
    ensures
        r is Err <==> orgs_spec(settings_json@).len() == 0,
        r matches Err(m) ==> m@ == NO_ORGS_MESSAGE@,
        r matches Ok(c) ==> names_view(c.orgs@) == orgs_spec(settings_json@) && c.base_url@
            == api_base_spec(settings_json@),
{
    let orgs = parse_orgs(settings_json);
    if orgs.len() == 0 {
        return Err(owned(NO_ORGS_MESSAGE));
    }
    let base_url = match read_json_string_field(settings_json, "base_url") {
        Some(u) => u,
        None => owned(DEFAULT_API_BASE_URL),
    };
    proof {
        reveal_strlit("base_url");
        reveal_strlit("https://api.github.com");
    }
    Ok(TeamSyncConfig { orgs, base_url })
}

/// Appends a page of teams to those discovered so far.
pub fn absorb_teams_page(teams: &mut Vec<GitHubTeam>, page: Vec<GitHubTeam>)
    ensures
        final(teams)@ == old(teams)@ + page@,
{
    let mut page = page;
    teams.append(&mut page);
}

/// The slugs of the synced teams, in order: teams of the organisation whose
/// slug is not among them are removed afterwards.
pub fn team_slugs(teams: &Vec<GitHubTeam>) -> (r: Vec<String>)
    ensures
        names_view(r@) == teams@.map_values(|t: GitHubTeam| t.slug@),
{
    let mut out: Vec<String> = Vec::new();
    let mut i: usize = 0;
    while i < teams.len()
        invariant
            i <= teams@.len(),
            out@.len() == i,
            forall|k: int| 0 <= k < i ==> (#[trigger] out@[k])@ == teams@[k].slug@,
        decreases teams@.len() - i,
    {
        out.push(teams[i].slug.clone());
        i = i + 1;
    }
    proof {
        assert(names_view(out@) =~= teams@.map_values(|t: GitHubTeam| t.slug@));
    }
    out
}

/// The logins of a page of team members, lowercased.
pub open spec fn member_logins(page: Seq<GitHubUser>) -> Seq<Seq<char>> {
    page.map_values(|u: GitHubUser| unicode_lowercase(u.login@))
}

/// Appends a page of team members, by lowercased login.
pub fn absorb_members_page(members: &mut Vec<String>, page: &Vec<GitHubUser>)
    ensures
        names_view(final(members)@) == names_view(old(members)@) + member_logins(page@),
{
    let ghost start = names_view(members@);
    let mut i: usize = 0;
    while i < page.len()
        invariant
            i <= page@.len(),
            names_view(members@) == start + member_logins(page@.take(i as int)),
        decreases page@.len() - i,
    {
        let login = to_lowercase(page[i].login.as_str());
        let ghost before = names_view(members@);
        members.push(login);
        proof {
            assert(names_view(members@) =~= before.push(login@));
            assert(member_logins(page@.take(i + 1)) =~= member_logins(page@.take(i as int)).push(
                unicode_lowercase(page@[i as int].login@),
            ));
        }
        i = i + 1;
    }
    proof {
        assert(page@.take(page@.len() as int) =~= page@);
    }
}

/// The repositories of a page of a team's repositories that are not
/// archived, as `(owner, name)`.
pub open spec fn active_team_repos(page: Seq<GitHubTeamRepo>) -> Seq<(Seq<char>, Seq<char>)>
    decreases page.len(),
{
    if page.len() == 0 {
        Seq::empty()
    } else {
        let r = page.last();
        let before = active_team_repos(page.drop_last());
        if r.archived == Some(true) {
            before
        } else {
            before.push((r.owner.login@, r.name@))
        }
    }
}

pub open spec fn pairs_view(v: Seq<(String, String)>) -> Seq<(Seq<char>, Seq<char>)> {
    v.map_values(|p: (String, String)| (p.0@, p.1@))
}

/// Appends the repositories of a page that are not archived.
pub fn absorb_team_repos_page(repos: &mut Vec<(String, String)>, page: &Vec<GitHubTeamRepo>)
    ensures
        pairs_view(final(repos)@) == pairs_view(old(repos)@) + active_team_repos(page@),
{
    let ghost start = pairs_view(repos@);
    let mut i: usize = 0;
    while i < page.len()
        invariant
            i <= page@.len(),
            pairs_view(repos@) == start + active_team_repos(page@.take(i as int)),
        decreases page@.len() - i,
    {
        let r = &page[i];
        proof {
            assert(page@.take(i + 1).drop_last() =~= page@.take(i as int));
            assert(page@.take(i + 1).last() == *r);
        }
        let archived = match r.archived {
            Some(a) => a,
            None => false,
        };
        if !archived {
            let ghost before = pairs_view(repos@);
            let pair = (r.owner.login.clone(), r.name.clone());
            repos.push(pair);
            proof {
                assert(pairs_view(repos@) =~= before.push((pair.0@, pair.1@)));
                assert(start + active_team_repos(page@.take(i + 1)) =~= before.push(
                    (pair.0@, pair.1@),
                ));
            }
        }
        i = i + 1;
    }
    proof {
        assert(page@.take(page@.len() as int) =~= page@);
    }
}

/// The number of teams a run records: the sum over its organisations of the
/// teams each synced (each count taken as `i32`).
pub fn add_org_teams(total: i32, team_count: usize) -> (r: i32)
    requires
        total + (team_count as i32) <= i32::MAX,
        total + (team_count as i32) >= i32::MIN,
    ensures
        r == total + (team_count as i32),
{
    total + (team_count as i32)
}

} // verus!
