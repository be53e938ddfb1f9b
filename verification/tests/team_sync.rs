use ps_workers::github::team_sync::{
    absorb_members_page, absorb_team_repos_page, absorb_teams_page, add_org_teams, parse_orgs,
    team_slugs, team_sync_config,
};
use ps_workers::github::types::{GitHubRepoOwner, GitHubTeam, GitHubTeamRepo, GitHubUser};

fn team(slug: &str) -> GitHubTeam {
    GitHubTeam { id: 1, slug: slug.into(), name: slug.to_uppercase(), description: None }
}

#[test]
fn orgs_come_from_settings() {
    assert_eq!(parse_orgs(r#"{"orgs":["canonical","ubuntu"]}"#), vec!["canonical", "ubuntu"]);
    assert!(parse_orgs(r#"{"orgs":"canonical"}"#).is_empty());
    assert!(parse_orgs(r#"{"orgs":[1,2]}"#).is_empty());
    assert!(parse_orgs("{}").is_empty());
    assert!(parse_orgs("nope").is_empty());
}

#[test]
fn config_needs_orgs() {
    assert_eq!(
        team_sync_config(r#"{"orgs":[]}"#).unwrap_err(),
        "no orgs configured for this source"
    );
    let c = team_sync_config(r#"{"orgs":["canonical"]}"#).unwrap();
    assert_eq!(c.orgs, vec!["canonical"]);
    assert_eq!(c.base_url, "https://api.github.com");
    let c = team_sync_config(r#"{"orgs":["a"],"base_url":"https://ghe.example.com/api/v3"}"#).unwrap();
    assert_eq!(c.base_url, "https://ghe.example.com/api/v3");
}

#[test]
fn pages_accumulate() {
    let mut teams = vec![team("core")];
    absorb_teams_page(&mut teams, vec![team("docs"), team("infra")]);
    assert_eq!(team_slugs(&teams), vec!["core", "docs", "infra"]);

    let mut members = vec!["zed".to_string()];
    absorb_members_page(
        &mut members,
        &vec![GitHubUser { login: "Alice".into(), id: 1 }, GitHubUser { login: "BOB".into(), id: 2 }],
    );
    assert_eq!(members, vec!["zed", "alice", "bob"]);

    let repo = |name: &str, archived: Option<bool>| GitHubTeamRepo {
        name: name.into(),
        owner: GitHubRepoOwner { login: "canonical".into() },
        archived,
    };
    let mut repos = Vec::new();
    absorb_team_repos_page(
        &mut repos,
        &vec![repo("lxd", Some(false)), repo("old", Some(true)), repo("juju", None)],
    );
    assert_eq!(
        repos,
        vec![
            ("canonical".to_string(), "lxd".to_string()),
            ("canonical".to_string(), "juju".to_string())
        ]
    );
}

#[test]
fn team_totals() {
    assert_eq!(add_org_teams(0, 3), 3);
    assert_eq!(add_org_teams(3, 4), 7);
}
