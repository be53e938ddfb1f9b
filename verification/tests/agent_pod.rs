use ps_workers::reasoning::catalogue::{
    fetch_failure_message, refreshed_setting_key, store_failure_message, CatalogueEnd,
    CatalogueProgress,
};
use ps_workers::reasoning::pod::{
    container_status_payload, pod_name_of, read_pod_status, wait_expired, PodStatus, PodWait,
};

#[test]
fn pod_polls() {
    assert!(wait_expired(59).is_none());
    assert!(matches!(wait_expired(60), Some(PodWait::Failed(m)) if m == "timed out waiting for agent container"));
    let running = PodStatus::Running { pod_ip: "10.0.0.7".into(), pod_name: "agent-1".into() };
    assert!(matches!(read_pod_status(&Ok(running.clone())), PodWait::Ready(ip) if ip == "10.0.0.7"));
    assert!(matches!(read_pod_status(&Ok(PodStatus::Pending)), PodWait::KeepWaiting));
    assert!(matches!(read_pod_status(&Ok(PodStatus::Gone)), PodWait::Failed(m) if m == "agent container failed to start"));
    assert!(matches!(
        read_pod_status(&Err("boom".into())),
        PodWait::Failed(m) if m == "error checking container status: boom"
    ));
    assert_eq!(pod_name_of(&running), "agent-1");
    assert_eq!(pod_name_of(&PodStatus::Pending), "unknown");
    assert_eq!(
        container_status_payload(false),
        ("creating".to_string(), "Starting agent container...".to_string())
    );
    assert_eq!(container_status_payload(true), ("ready".to_string(), "Agent ready".to_string()));
}

#[test]
fn catalogue_progress() {
    let mut p = CatalogueProgress::starting();
    assert_eq!(p.phase, "starting");
    assert_eq!(p.status_message, "Starting model catalogue refresh");
    p.fetching();
    assert_eq!(p.phase, "fetching google");

    let mut ok = p.clone();
    assert!(matches!(ok.finish(Ok(42)), CatalogueEnd::Complete { items: 42 }));
    assert_eq!(ok.phase, "completed");
    assert_eq!(ok.status_message, "42 models cached");
    assert_eq!(ok.google.as_ref().unwrap().models_fetched, 42);

    let mut failed = p.clone();
    let end = failed.finish(Err("google: quota".into()));
    assert!(matches!(end, CatalogueEnd::Fail { message } if message == "google: quota"));
    assert_eq!(failed.phase, "failed");
    assert_eq!(failed.google.as_ref().unwrap().error.as_deref(), Some("google: quota"));

    let mut none = p.clone();
    assert!(matches!(none.no_api_key(), CatalogueEnd::Complete { items: 0 }));
    assert_eq!(none.status_message, "No Google API key configured");

    assert_eq!(fetch_failure_message("google", "403"), "google: 403");
    assert_eq!(store_failure_message("google", "db"), "google: failed to store models: db");
    assert_eq!(refreshed_setting_key("google"), "ai.models_refreshed.google");
}

#[test]
fn source_names_and_pod_response() {
    assert_eq!(ps_workers::github::source::GitHubSource.name(), "github");
    assert_eq!(ps_workers::discourse::source::DiscourseSource.name(), "discourse");
    let r = ps_workers::reasoning::pod::PrepareQueryResponse {
        pod_ip: "10.0.0.7".into(),
        pod_name: pod_name_of(&PodStatus::Running { pod_ip: "10.0.0.7".into(), pod_name: "agent-9".into() }),
    };
    assert_eq!(r.pod_name, "agent-9");
}
