use ps_workers::identity::resolution::{
    after_email_lookup, after_probe, discourse_sources, first_step, missing_base_url, probe_from,
    result_of, total_resolved, LookupOutcome, PendingPerson, PersonResult, ProbeResult,
    ResolutionStep, SourceInfo, SourceRow, SourceTally,
};

fn row(name: &str, enabled: bool, discourse: bool, settings: &str) -> SourceRow {
    SourceRow {
        id: format!("id-{name}"),
        name: name.into(),
        enabled,
        is_discourse: discourse,
        platform: "discourse".into(),
        settings_json: settings.into(),
    }
}

fn person(email: Option<&str>) -> PendingPerson {
    PendingPerson { person_id: "p1".into(), name: "Ada".into(), email: email.map(String::from) }
}

#[test]
fn only_enabled_forums_are_resolved() {
    let rows = vec![
        row("forum", true, true, r#"{"base_url":"https://discourse.example.com//"}"#),
        row("off", false, true, r#"{"base_url":"https://x"}"#),
        row("jira", true, false, r#"{"base_url":"https://y"}"#),
        row("bare", true, true, r#"{"other":1}"#),
        row("broken", true, true, "not json"),
    ];
    let sources = discourse_sources(&rows);
    assert_eq!(sources.len(), 3);
    assert_eq!(sources[0].name, "forum");
    assert_eq!(sources[0].id, "id-forum");
    assert_eq!(sources[0].base_url, "https://discourse.example.com");
    assert_eq!(sources[1].name, "bare");
    assert_eq!(sources[1].base_url, "");
    assert_eq!(sources[2].base_url, "");
}

#[test]
fn source_without_base_url_is_refused() {
    let s = SourceInfo {
        id: "1".into(),
        name: "forum".into(),
        platform: "discourse".into(),
        base_url: String::new(),
    };
    assert_eq!(
        missing_base_url(&s).as_deref(),
        Some("no base_url configured for source 'forum'")
    );
    let ok = SourceInfo { base_url: "https://f".into(), ..s };
    assert!(missing_base_url(&ok).is_none());
}

#[test]
fn email_search_comes_first() {
    assert!(matches!(
        first_step(&person(Some("ada@example.com"))),
        ResolutionStep::LookUpEmail { email } if email == "ada@example.com"
    ));
    assert!(matches!(first_step(&person(Some(""))), ResolutionStep::LoadCandidates));
    assert!(matches!(first_step(&person(None)), ResolutionStep::LoadCandidates));
}

#[test]
fn email_search_answers() {
    let found = after_email_lookup(LookupOutcome::Found("ada".into()));
    assert!(matches!(&found, ResolutionStep::StoreResolution { username } if username == "ada"));
    assert_eq!(result_of(&found), Some(PersonResult::Resolved));
    assert!(matches!(after_email_lookup(LookupOutcome::NotFound), ResolutionStep::LoadCandidates));
    let limited = after_email_lookup(LookupOutcome::RateLimited);
    assert!(matches!(limited, ResolutionStep::RateLimited));
    assert_eq!(result_of(&limited), Some(PersonResult::RateLimited));
}

#[test]
fn probes_go_in_order_and_store_the_first_existing() {
    let cands = vec!["ada".to_string(), "ada_l".to_string(), "lovelace".to_string()];
    assert!(matches!(probe_from(&cands, 0), ResolutionStep::Probe { index: 0, candidate } if candidate == "ada"));
    let next = after_probe(&cands, 0, ProbeResult::NotFound);
    assert!(matches!(&next, ResolutionStep::Probe { index: 1, candidate } if candidate == "ada_l"));
    assert_eq!(result_of(&next), None);
    let stored = after_probe(&cands, 1, ProbeResult::Exists);
    assert!(matches!(&stored, ResolutionStep::StoreResolution { username } if username == "ada_l"));
    assert!(matches!(after_probe(&cands, 1, ProbeResult::RateLimited), ResolutionStep::RateLimited));
    let last = after_probe(&cands, 2, ProbeResult::NotFound);
    assert!(matches!(last, ResolutionStep::StoreUnresolved));
    assert_eq!(result_of(&last), Some(PersonResult::Unresolved));
    assert!(matches!(probe_from(&Vec::new(), 0), ResolutionStep::StoreUnresolved));
}

#[test]
fn source_tally_counts_and_sleeps() {
    let mut t = SourceTally::new();
    assert!(!t.wants_backfill());
    assert!(!t.record(PersonResult::Unresolved));
    assert!(t.record(PersonResult::RateLimited));
    assert!(!t.record(PersonResult::Resolved));
    assert!(!t.record(PersonResult::Failed));
    assert!(!t.record(PersonResult::Resolved));
    assert_eq!(t.resolved, 2);
    assert!(t.wants_backfill());
}

#[test]
fn run_total_skips_failed_sources() {
    assert_eq!(total_resolved(&vec![Some(2), None, Some(3), Some(0)]), 5);
    assert_eq!(total_resolved(&Vec::new()), 0);
}
