use ps_workers::github::repos::{absorb_org_repos_page, discovery_settings, mapped_targets};
use ps_workers::github::types::{GitHubRepo, GitHubRepoOwner};
use ps_workers::ingestion::contribution::{
    ContributionInput, ContributionMetrics, EnrichmentContent, IngestionError, Metadata, Metrics,
};
use ps_workers::ingestion::enrichment_queue::enrichment_entries;
use ps_workers::model::{ContributionType, Platform};

fn repo(name: &str, archived: Option<bool>) -> GitHubRepo {
    GitHubRepo {
        name: name.into(),
        full_name: format!("canonical/{name}"),
        owner: GitHubRepoOwner { login: "canonical".into() },
        archived,
        default_branch: Some("main".into()),
        language: None,
    }
}

#[test]
fn discovery_leaves_out_archived_and_excluded() {
    let page = vec![repo("lxd", Some(false)), repo("old", Some(true)), repo("skip-me", None), repo("juju", None)];
    let mut targets = Vec::new();
    let mut rows = Vec::new();
    absorb_org_repos_page(&mut targets, &mut rows, &page, true, &vec!["skip-me".to_string()]);
    let names: Vec<&str> = targets.iter().map(|t| t.repo.as_str()).collect();
    assert_eq!(names, vec!["lxd", "juju"]);
    assert_eq!(rows.len(), 2);
    assert_eq!(rows[0].default_branch.as_deref(), Some("main"));

    let mut all = Vec::new();
    let mut all_rows = Vec::new();
    absorb_org_repos_page(&mut all, &mut all_rows, &page, false, &Vec::new());
    assert_eq!(all.len(), 4);
}

#[test]
fn discovery_settings_defaults() {
    let s = discovery_settings(r#"{"orgs":["canonical"]}"#).unwrap();
    assert!(s.exclude_archived);
    assert!(s.exclude_repos.is_empty());
    let s = discovery_settings(r#"{"orgs":["a"],"exclude_archived":false,"exclude_repos":["x"]}"#).unwrap();
    assert!(!s.exclude_archived);
    assert_eq!(s.exclude_repos, vec!["x"]);
    assert!(matches!(
        discovery_settings(r#"{"orgs":[]}"#),
        Err(IngestionError::Validation(m)) if m == "GitHub source has no orgs configured"
    ));
}

#[test]
fn mapped_repos_become_targets() {
    let t = mapped_targets(vec![("canonical".into(), "lxd".into()), ("ubuntu".into(), "snapd".into())]);
    assert_eq!(t.len(), 2);
    assert_eq!(t[1].owner, "ubuntu");
    assert_eq!(t[1].repo, "snapd");
}

fn item(pid: &str, content: bool, title: &str) -> ContributionInput {
    ContributionInput {
        platform: Platform::Github,
        contribution_type: ContributionType::PullRequest,
        platform_id: pid.into(),
        platform_username: "u".into(),
        title: Some(title.into()),
        url: None,
        state: None,
        created_at: 0,
        updated_at: None,
        closed_at: None,
        metrics: Metrics::Code(ContributionMetrics {
            additions: None,
            deletions: None,
            changed_files: None,
            review_count: None,
            draft: None,
            review_state: None,
        }),
        metadata: Metadata::Topic { category_id: None },
        content: None,
        state_history: None,
        enrichment_content: if content {
            Some(EnrichmentContent::Review {
                pr_title: title.into(),
                pr_number: 1,
                state: "APPROVED".into(),
                body: "b".into(),
                inline_comments: Vec::new(),
            })
        } else {
            None
        },
    }
}

#[test]
fn enrichment_entries_follow_upserts() {
    let items = vec![item("a", true, "first"), item("b", false, "none"), item("a", true, "second"), item("c", true, "c")];
    let upserted = vec![(1u128, "c".to_string()), (2, "b".to_string()), (3, "a".to_string()), (4, "zzz".to_string())];
    assert_eq!(enrichment_entries(&items, &upserted), vec![(1, 3), (3, 2)]);
    assert!(enrichment_entries(&items, &Vec::new()).is_empty());
}
