use ps_workers::reasoning::reaper::{
    active_not_reaped, conversations_of, find_orphans, sessions_to_delete, PodInfo, REAPER_KEY,
    STALE_THRESHOLD_MINUTES, WATCHDOG_KEY,
};

const A: &str = "00000000-0000-0000-0000-00000000000a";
const B: &str = "00000000-0000-0000-0000-00000000000b";
const C: &str = "00000000-0000-0000-0000-00000000000c";

fn pod(session: &str, token: &str, name: &str) -> PodInfo {
    PodInfo { session_id: session.into(), token_session_id: token.into(), pod_name: name.into() }
}

#[test]
fn reaped_sessions_and_conversations() {
    let reaped = vec![pod(A, B, "p1"), pod("not-a-uuid", "nope", "p2")];
    assert_eq!(sessions_to_delete(&reaped), vec![0xb]);
    assert_eq!(conversations_of(&reaped), vec![0xa]);
}

#[test]
fn orphans_exclude_reaped_and_existing() {
    let reaped = vec![pod(A, B, "p1")];
    let active = vec![pod(A, B, "p1"), pod(B, C, "p2"), pod(C, A, "p3"), pod("junk", A, "p4")];
    let remaining = active_not_reaped(&active, &reaped);
    assert_eq!(remaining.len(), 3);
    let orphans = find_orphans(&remaining, &vec![0xc]);
    assert_eq!(orphans.len(), 1);
    assert_eq!(orphans[0].pod_name, "p2");
}

#[test]
fn periodic_keys() {
    assert_eq!(REAPER_KEY, "singleton");
    assert_eq!(WATCHDOG_KEY, "singleton");
    assert_eq!(STALE_THRESHOLD_MINUTES, 10);
}
