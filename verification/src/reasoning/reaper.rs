//! Which agent pods and sessions the reaper cleans up, and the constants of
//! the periodic reaper and query watchdog.
use vstd::prelude::*;

use crate::model::{parse_uuid, uuid_parse};
use crate::text::str_eq;

verus! {

broadcast use vstd::std_specs::hash::group_hash_axioms;

/// Object key of the single reaper chain.
pub const REAPER_KEY: &'static str = "singleton";

/// Seconds between reaper runs.
pub const REAPER_INTERVAL_SECS: u64 = 60;

/// Object key of the single watchdog chain.
pub const WATCHDOG_KEY: &'static str = "singleton";

/// Conversations running longer than this many minutes are reset to
/// `failed` (pod startup, the stream timeout, and a margin).
pub const STALE_THRESHOLD_MINUTES: i32 = 10;

/// Seconds between watchdog runs.
pub const WATCHDOG_INTERVAL_SECS: u64 = 60;

/// Message left in a conversation whose query was reset.
pub const STALE_QUERY_MESSAGE: &'static str = "This query was terminated because it stopped responding. Please retry.";

/// An agent pod.
#[derive(Debug, Clone)]
pub struct PodInfo {
    /// The conversation the pod serves.
    pub session_id: String,
    /// The service session its token belongs to.
    pub token_session_id: String,
    pub pod_name: String,
}

/// The UUIDs among `texts`, in order (texts that are not UUIDs are left
/// out).
pub open spec fn uuids_of(texts: Seq<Seq<char>>) -> Seq<u128>
    decreases texts.len(),
{
    if texts.len() == 0 {
        seq![]
    } else {
        uuids_of(texts.drop_last()) + match uuid_parse(texts.last()) {
            Ok(u) => seq![u],
            Err(_) => seq![],
        }
    }
}

pub open spec fn token_sessions(pods: Seq<PodInfo>) -> Seq<Seq<char>> {
    pods.map_values(|p: PodInfo| p.token_session_id@)
}

pub open spec fn conversations(pods: Seq<PodInfo>) -> Seq<Seq<char>> {
    pods.map_values(|p: PodInfo| p.session_id@)
}

fn parse_all(texts: &Vec<String>) -> (r: Vec<u128>)
    ensures
        r@ == uuids_of(texts@.map_values(|s: String| s@)),
{
    let ghost ts = texts@.map_values(|s: String| s@);
    let mut out: Vec<u128> = Vec::new();
    let mut i: usize = 0;
    while i < texts.len()
        invariant
            i <= texts@.len(),
            ts == texts@.map_values(|s: String| s@),
            out@ == uuids_of(ts.take(i as int)),
        decreases texts.len() - i,
    {
        proof {
            assert(ts.take(i + 1).drop_last() =~= ts.take(i as int));
            assert(ts.take(i + 1).last() == texts@[i as int]@);
        }
        match parse_uuid(texts[i].as_str()) {
            Ok(u) => {
                out.push(u);
            },
            Err(_) => {
                proof {
                    assert(uuids_of(ts.take(i + 1)) =~= uuids_of(ts.take(i as int)));
                }
            },
        }
        i = i + 1;
    }
    proof {
        assert(ts.take(texts@.len() as int) =~= ts);
    }
    out
}

/// The token sessions of reaped pods to delete: those that are UUIDs.
pub fn sessions_to_delete(pods: &Vec<PodInfo>) -> (r: Vec<u128>)
    ensures
        r@ == uuids_of(token_sessions(pods@)),
{
    let mut texts: Vec<String> = Vec::new();
    let mut i: usize = 0;
    while i < pods.len()
        invariant
            i <= pods@.len(),
            texts@.map_values(|s: String| s@) == token_sessions(pods@.take(i as int)),
        decreases pods.len() - i,
    {
        let ghost before = texts@;
        let t = pods[i].token_session_id.clone();
        texts.push(t);
        proof {
            assert(texts@.map_values(|s: String| s@) =~= before.map_values(|s: String| s@).push(t@));
            assert(token_sessions(pods@.take(i + 1)) =~= token_sessions(pods@.take(i as int)).push(t@));
        }
        i = i + 1;
    }
    proof {
        assert(pods@.take(pods@.len() as int) =~= pods@);
    }
    parse_all(&texts)
}

/// The conversations of pods (those whose session is a UUID).
pub fn conversations_of(pods: &Vec<PodInfo>) -> (r: Vec<u128>)
    ensures
        r@ == uuids_of(conversations(pods@)),
{
    let mut texts: Vec<String> = Vec::new();
    let mut i: usize = 0;
    while i < pods.len()
        invariant
            i <= pods@.len(),
            texts@.map_values(|s: String| s@) == conversations(pods@.take(i as int)),
        decreases pods.len() - i,
    {
        let ghost before = texts@;
        let t = pods[i].session_id.clone();
        texts.push(t);
        proof {
            assert(texts@.map_values(|s: String| s@) =~= before.map_values(|s: String| s@).push(t@));
            assert(conversations(pods@.take(i + 1)) =~= conversations(pods@.take(i as int)).push(t@));
        }
        i = i + 1;
    }
    proof {
        assert(pods@.take(pods@.len() as int) =~= pods@);
    }
    parse_all(&texts)
}

/// Active pods not reaped in this run, in order.
pub open spec fn not_reaped(active: Seq<PodInfo>, reaped: Seq<PodInfo>) -> Seq<PodInfo> {
    active.filter(|p: PodInfo| !conversations(reaped).contains(p.session_id@))
}

/// An orphan: an active pod whose conversation id parses and no longer
/// exists.
pub open spec fn is_orphan(p: PodInfo, existing: Seq<u128>) -> bool {
    uuid_parse(p.session_id@) matches Ok(id) && !existing.contains(id)
}

pub open spec fn orphans_of(active: Seq<PodInfo>, existing: Seq<u128>) -> Seq<PodInfo> {
    active.filter(|p: PodInfo| is_orphan(p, existing))
}

fn dup_pod(p: &PodInfo) -> (r: PodInfo)
    ensures
        r == *p,
{
    PodInfo {
        session_id: p.session_id.clone(),
        token_session_id: p.token_session_id.clone(),
        pod_name: p.pod_name.clone(),
    }
}

/// Whether a reaped pod serves conversation `session` (ids compared as
/// text, as the reaped set holds them).
fn reaped_contains(reaped: &Vec<PodInfo>, session: &str) -> (r: bool)
    ensures
        r == conversations(reaped@).contains(session@),
{
    let mut i: usize = 0;
    while i < reaped.len()
        invariant
            i <= reaped@.len(),
            forall|k: int| 0 <= k < i ==> reaped@[k].session_id@ != session@,
        decreases reaped.len() - i,
    {
        if str_eq(reaped[i].session_id.as_str(), session) {
            proof {
                assert(conversations(reaped@)[i as int] == session@);
            }
            return true;
        }
        i = i + 1;
    }
    proof {
        if conversations(reaped@).contains(session@) {
            let k = choose|k: int| 0 <= k < conversations(reaped@).len() && conversations(reaped@)[k] == session@;
            assert(reaped@[k].session_id@ == session@);
        }
    }
    false
}

/// The active pods the reaper did not reap this run.
pub fn active_not_reaped(active: &Vec<PodInfo>, reaped: &Vec<PodInfo>) -> (r: Vec<PodInfo>)
    ensures
        r@ == not_reaped(active@, reaped@),
{
    let ghost pred = |p: PodInfo| !conversations(reaped@).contains(p.session_id@);
    let mut out: Vec<PodInfo> = Vec::new();
    let mut i: usize = 0;
    while i < active.len()
        invariant
            i <= active@.len(),
            pred == (|p: PodInfo| !conversations(reaped@).contains(p.session_id@)),
            out@ == active@.take(i as int).filter(pred),
        decreases active.len() - i,
    {
        proof {
            assert(active@.take(i + 1) =~= active@.take(i as int).push(active@[i as int]));
            crate::seqs::lemma_filter_push(active@.take(i as int), pred, active@[i as int]);
        }
        if !reaped_contains(reaped, active[i].session_id.as_str()) {
            out.push(dup_pod(&active[i]));
        }
        i = i + 1;
    }
    proof {
        assert(active@.take(active@.len() as int) =~= active@);
    }
    out
}

/// The ids as a hash set, for membership tests.
fn id_set(ids: &Vec<u128>) -> (r: std::collections::HashSet<u128>)
    ensures
        forall|x: u128| r@.contains(x) <==> ids@.contains(x),
{
    let mut set: std::collections::HashSet<u128> = std::collections::HashSet::new();
    let mut i: usize = 0;
    while i < ids.len()
        invariant
            i <= ids@.len(),
            forall|x: u128| set@.contains(x) <==> ids@.take(i as int).contains(x),
        decreases ids.len() - i,
    {
        let ghost before = set@;
        set.insert(ids[i]);
        proof {
            let t = ids@.take(i + 1);
            assert(t =~= ids@.take(i as int).push(ids@[i as int]));
            assert forall|x: u128| set@.contains(x) <==> t.contains(x) by {
                if ids@.take(i as int).contains(x) {
                    let k = choose|k: int| 0 <= k < i && ids@.take(i as int)[k] == x;
                    assert(t[k] == x);
                }
                if t.contains(x) && x != ids@[i as int] {
                    let k = choose|k: int| 0 <= k < t.len() && t[k] == x;
                    assert(ids@.take(i as int)[k] == x);
                }
                assert(t[i as int] == ids@[i as int]);
            }
        }
        i = i + 1;
    }
    proof {
        assert(ids@.take(ids@.len() as int) =~= ids@);
    }
    set
}

/// The orphaned pods: their conversation was deleted.
pub fn find_orphans(active: &Vec<PodInfo>, existing: &Vec<u128>) -> (r: Vec<PodInfo>)
    ensures
        r@ == orphans_of(active@, existing@),
{
    let ghost pred = |p: PodInfo| is_orphan(p, existing@);
    let existing_set = id_set(existing);
    let mut out: Vec<PodInfo> = Vec::new();
    let mut i: usize = 0;
    while i < active.len()
        invariant
            i <= active@.len(),
            pred == (|p: PodInfo| is_orphan(p, existing@)),
            out@ == active@.take(i as int).filter(pred),
            forall|x: u128| existing_set@.contains(x) <==> existing@.contains(x),
        decreases active.len() - i,
    {
        proof {
            assert(active@.take(i + 1) =~= active@.take(i as int).push(active@[i as int]));
            crate::seqs::lemma_filter_push(active@.take(i as int), pred, active@[i as int]);
        }
        let orphan = match parse_uuid(active[i].session_id.as_str()) {
            Ok(id) => !existing_set.contains(&id),
            Err(_) => false,
        };
        if orphan {
            out.push(dup_pod(&active[i]));
        }
        i = i + 1;
    }
    proof {
        assert(active@.take(active@.len() as int) =~= active@);
    }
    out
}

/// A pod reaped as idle is never reaped again as an orphan in the same
/// run.
pub proof fn law_reaped_pods_not_orphaned(active: Seq<PodInfo>, reaped: Seq<PodInfo>, existing: Seq<u128>, i: int)
    requires
        0 <= i < orphans_of(not_reaped(active, reaped), existing).len(),
    ensures
        !conversations(reaped).contains(orphans_of(not_reaped(active, reaped), existing)[i].session_id@),
{
    let nr = not_reaped(active, reaped);
    crate::seqs::lemma_filter_members(nr, |p: PodInfo| is_orphan(p, existing));
    let x = orphans_of(nr, existing)[i];
    assert(nr.contains(x));
    crate::seqs::lemma_filter_members(active, |p: PodInfo| !conversations(reaped).contains(p.session_id@));
    let k = choose|k: int| 0 <= k < nr.len() && nr[k] == x;
    assert((|p: PodInfo| !conversations(reaped).contains(p.session_id@))(nr[k]));
}

} // verus!
