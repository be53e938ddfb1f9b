//! Identity resolution on Discourse forums: which sources are resolved,
//! which strategy is tried for each pending person and in what order, and
//! what the run records.
//!
//! A person is resolved by the forum's admin search on their email first,
//! then by probing, one by one, the usernames they already hold elsewhere.
//! The first username found is stored; when nothing is found the person is
//! marked unresolved; a rate-limited answer stores nothing and makes the
//! source sleep before the next person.
use vstd::prelude::*;

use crate::model::{json_string_field, read_json_string_field};
use crate::text::{owned, push_str, string_from_range, to_chars, trim_end_len, trim_end_spec};

verus! {

/// Seconds a source's resolution sleeps after a rate-limited answer.
pub const RATE_LIMIT_SLEEP_SECS: u64 = 60;

/// A configured source, as the config table lists it.
#[derive(Debug, Clone)]
pub struct SourceRow {
    pub id: String,
    pub name: String,
    pub enabled: bool,
    pub is_discourse: bool,
    /// The source type's name, which is also the platform's.
    pub platform: String,
    /// The source's settings, as JSON text.
    pub settings_json: String,
}

/// A Discourse source to resolve identities on.
#[derive(Debug, Clone)]
pub struct SourceInfo {
    pub id: String,
    pub name: String,
    pub platform: String,
    /// The forum's base URL without trailing slashes; empty when unset.
    pub base_url: String,
}

/// The base URL of a source's settings: the `base_url` string without its
/// trailing slashes, empty when the field is missing or not a string.
pub open spec fn base_url_spec(settings_json: Seq<char>) -> Seq<char> {
    match json_string_field(settings_json, "base_url"@) {
        Some(u) => trim_end_spec(u, '/'),
        None => Seq::empty(),
    }
}

/// A source's fields as they are listed: id, name, platform, base URL.
pub open spec fn info_of(row: SourceRow) -> (Seq<char>, Seq<char>, Seq<char>, Seq<char>) {
    (row.id@, row.name@, row.platform@, base_url_spec(row.settings_json@))
}

pub open spec fn info_view(s: SourceInfo) -> (Seq<char>, Seq<char>, Seq<char>, Seq<char>) {
    (s.id@, s.name@, s.platform@, s.base_url@)
}

/// A source takes part in resolution when it is enabled and a forum.
pub open spec fn is_resolved_source(row: SourceRow) -> bool {
    row.enabled && row.is_discourse
}

/// The sources resolution runs on, in the order listed.
pub open spec fn listed_sources(rows: Seq<SourceRow>) -> Seq<(Seq<char>, Seq<char>, Seq<char>, Seq<char>)>
    decreases rows.len(),
{
    if rows.len() == 0 {
        Seq::empty()
    } else {
        let before = listed_sources(rows.drop_last());
        if is_resolved_source(rows.last()) {
            before.push(info_of(rows.last()))
        } else {
            before
        }
    }
}

pub open spec fn infos_view(v: Seq<SourceInfo>) -> Seq<(Seq<char>, Seq<char>, Seq<char>, Seq<char>)> {
    v.map_values(|s: SourceInfo| info_view(s))
}

/// The enabled Discourse sources among the configured ones, each with the
/// base URL of its settings.
pub fn discourse_sources(rows: &Vec<SourceRow>) -> (r: Vec<SourceInfo>)
    ensures
        infos_view(r@) == listed_sources(rows@),
{
    let mut out: Vec<SourceInfo> = Vec::new();
    let mut i: usize = 0;
    while i < rows.len()
        invariant
            i <= rows@.len(),
            infos_view(out@) == listed_sources(rows@.take(i as int)),
        decreases rows@.len() - i,
    {
        proof {
            assert(rows@.take(i as int + 1).drop_last() =~= rows@.take(i as int));
            assert(rows@.take(i as int + 1).last() == rows@[i as int]);
        }
        let row = &rows[i];
        if row.enabled && row.is_discourse {
            let base_url = match read_json_string_field(row.settings_json.as_str(), "base_url") {
                Some(u) => {
                    let v = to_chars(u.as_str());
                    let n = trim_end_len(&v, '/');
                    string_from_range(&v, 0, n)
                },
                None => String::new(),
            };
            proof {
                reveal_strlit("base_url");
            }
            let info = SourceInfo {
                id: row.id.clone(),
                name: row.name.clone(),
                platform: row.platform.clone(),
                base_url,
            };
            let ghost before = out@;
            out.push(info);
            proof {
                assert(infos_view(out@) =~= infos_view(before).push(info_view(info)));
            }
        }
        i = i + 1;
    }
    proof {
        assert(rows@.take(rows@.len() as int) =~= rows@);
    }
    out
}

/// The error of a source without a base URL:
/// `no base_url configured for source '{name}'`.
pub fn missing_base_url(source: &SourceInfo) -> (r: Option<String>)
    ensures
        source.base_url@.len() > 0 ==> r is None,
        source.base_url@.len() == 0 ==> (r matches Some(m) && m@ == "no base_url configured for source '"@
            + source.name@ + "'"@),
{
    if source.base_url.as_str().is_empty() {
        let mut m = owned("no base_url configured for source '");
        push_str(&mut m, source.name.as_str());
        push_str(&mut m, "'");
        Some(m)
    } else {
        None
    }
}

// ---------------------------------------------------------------------------
// One person
// ---------------------------------------------------------------------------

/// A person whose identity on the platform is still pending.
#[derive(Debug, Clone)]
pub struct PendingPerson {
    pub person_id: String,
    pub name: String,
    pub email: Option<String>,
}

/// What the forum's admin search by email answered.
#[derive(Debug, Clone)]
pub enum LookupOutcome {
    Found(String),
    NotFound,
    RateLimited,
}

/// What probing a username answered.
#[derive(Debug, Clone, Copy, PartialEq, Eq, Structural)]
pub enum ProbeResult {
    Exists,
    NotFound,
    RateLimited,
}

/// The next thing a person's resolution asks for.
#[derive(Debug, Clone)]
pub enum ResolutionStep {
    /// Search the forum's users by this email.
    LookUpEmail { email: String },
    /// Load the usernames the person holds on other platforms.
    LoadCandidates,
    /// Ask whether the candidate at this index exists on the forum.
    Probe { index: usize, candidate: String },
    /// Record the person as this forum user (the person is resolved).
    StoreResolution { username: String },
    /// Record the person as unresolved.
    StoreUnresolved,
    /// The forum rate-limited the lookup: record nothing.
    RateLimited,
}

/// How a person's resolution ended.
#[derive(Debug, Clone, Copy, PartialEq, Eq, Structural)]
pub enum PersonResult {
    Resolved,
    Unresolved,
    RateLimited,
    /// The lookup or a store failed: the person is skipped.
    Failed,
}

/// The email to search by: present and non-empty.
pub open spec fn lookup_email(person: PendingPerson) -> Option<Seq<char>> {
    match person.email {
        Some(e) => if e@.len() > 0 {
            Some(e@)
        } else {
            None
        },
        None => None,
    }
}

/// Where a person's resolution starts: the email search when the person has
/// an email, the username probes otherwise.
pub fn first_step(person: &PendingPerson) -> (r: ResolutionStep)
    ensures
        match lookup_email(*person) {
            Some(e) => r matches ResolutionStep::LookUpEmail { email } && email@ == e,
            None => r is LoadCandidates,
        },
{
    match &person.email {
        Some(e) => {
            if e.as_str().is_empty() {
                ResolutionStep::LoadCandidates
            } else {
                ResolutionStep::LookUpEmail { email: e.clone() }
            }
        },
        None => ResolutionStep::LoadCandidates,
    }
}

/// After the email search: a found username is stored at once, a
/// rate-limited search ends the person, and no match moves on to probing.
pub fn after_email_lookup(outcome: LookupOutcome) -> (r: ResolutionStep)
    ensures
        match outcome {
            LookupOutcome::Found(u) => r matches ResolutionStep::StoreResolution { username } && username@
                == u@,
            LookupOutcome::NotFound => r is LoadCandidates,
            LookupOutcome::RateLimited => r is RateLimited,
        },
{
    match outcome {
        LookupOutcome::Found(u) => ResolutionStep::StoreResolution { username: u },
        LookupOutcome::NotFound => ResolutionStep::LoadCandidates,
        LookupOutcome::RateLimited => ResolutionStep::RateLimited,
    }
}

/// A resolution step as a plain value.
pub enum StepView {
    LookUpEmail(Seq<char>),
    LoadCandidates,
    Probe(int, Seq<char>),
    Store(Seq<char>),
    StoreUnresolved,
    RateLimited,
}

pub open spec fn step_view(s: ResolutionStep) -> StepView {
    match s {
        ResolutionStep::LookUpEmail { email } => StepView::LookUpEmail(email@),
        ResolutionStep::LoadCandidates => StepView::LoadCandidates,
        ResolutionStep::Probe { index, candidate } => StepView::Probe(index as int, candidate@),
        ResolutionStep::StoreResolution { username } => StepView::Store(username@),
        ResolutionStep::StoreUnresolved => StepView::StoreUnresolved,
        ResolutionStep::RateLimited => StepView::RateLimited,
    }
}

pub open spec fn names_view(v: Seq<String>) -> Seq<Seq<char>> {
    v.map_values(|s: String| s@)
}

/// The probe of the candidate at `index`, or the unresolved mark past the
/// last candidate.
pub open spec fn probe_from_spec(candidates: Seq<Seq<char>>, index: int) -> StepView {
    if index < candidates.len() {
        StepView::Probe(index, candidates[index])
    } else {
        StepView::StoreUnresolved
    }
}

/// The step after the probe of the candidate at `index` answered `result`.
pub open spec fn after_probe_spec(candidates: Seq<Seq<char>>, index: int, result: ProbeResult) -> StepView {
    match result {
        ProbeResult::Exists => StepView::Store(candidates[index]),
        ProbeResult::RateLimited => StepView::RateLimited,
        ProbeResult::NotFound => probe_from_spec(candidates, index + 1),
    }
}

/// The probe of the candidate at `index`, or the unresolved mark when every
/// candidate has been probed.
pub fn probe_from(candidates: &Vec<String>, index: usize) -> (r: ResolutionStep)
    requires
        index <= candidates@.len(),
    ensures
        step_view(r) == probe_from_spec(names_view(candidates@), index as int),
{
    if index < candidates.len() {
        ResolutionStep::Probe { index, candidate: candidates[index].clone() }
    } else {
        ResolutionStep::StoreUnresolved
    }
}

/// After probing the candidate at `index`: an existing username is stored, a
/// rate-limited probe ends the person, and a missing one moves on to the
/// next candidate.
pub fn after_probe(candidates: &Vec<String>, index: usize, result: ProbeResult) -> (r: ResolutionStep)
    requires
        index < candidates@.len(),
    ensures
        step_view(r) == after_probe_spec(names_view(candidates@), index as int, result),
{
    let n = candidates.len();
    match result {
        ProbeResult::Exists => ResolutionStep::StoreResolution { username: candidates[index].clone() },
        ProbeResult::RateLimited => ResolutionStep::RateLimited,
        ProbeResult::NotFound => {
            assert(index + 1 <= n);
            probe_from(candidates, index + 1)
        },
    }
}

/// How a person ends once a final step has been carried out.
pub fn result_of(step: &ResolutionStep) -> (r: Option<PersonResult>)
    ensures
        r == match *step {
            ResolutionStep::StoreResolution { .. } => Some(PersonResult::Resolved),
            ResolutionStep::StoreUnresolved => Some(PersonResult::Unresolved),
            ResolutionStep::RateLimited => Some(PersonResult::RateLimited),
            _ => None::<PersonResult>,
        },
{
    match step {
        ResolutionStep::StoreResolution { .. } => Some(PersonResult::Resolved),
        ResolutionStep::StoreUnresolved => Some(PersonResult::Unresolved),
        ResolutionStep::RateLimited => Some(PersonResult::RateLimited),
        _ => None,
    }
}

// ---------------------------------------------------------------------------
// A whole round of probes
// ---------------------------------------------------------------------------

/// Where probing ends when the probes from the candidate at `k` on answer
/// `answers`, each step following from the previous one's answer; a probe
/// still unanswered is where it stands.
pub open spec fn probing_from(candidates: Seq<Seq<char>>, answers: Seq<ProbeResult>, k: int) -> StepView
    decreases candidates.len() - k,
{
    if k < 0 || k >= candidates.len() {
        StepView::StoreUnresolved
    } else if k >= answers.len() {
        StepView::Probe(k, candidates[k])
    } else {
        match after_probe_spec(candidates, k, answers[k]) {
            StepView::Probe(_, _) => probing_from(candidates, answers, k + 1),
            other => other,
        }
    }
}

/// A round of probes stores the first candidate that exists, when no probe
/// before it was rate-limited.
pub proof fn law_probing_stores_first_existing(candidates: Seq<Seq<char>>, answers: Seq<ProbeResult>, i: int)
    requires
        0 <= i < candidates.len(),
        i < answers.len(),
        forall|k: int| 0 <= k < i ==> answers[k] == ProbeResult::NotFound,
        answers[i] == ProbeResult::Exists,
    ensures
        probe_from_spec(candidates, 0) == StepView::Probe(0, candidates[0]),
        probing_from(candidates, answers, 0) == StepView::Store(candidates[i]),
{
    lemma_probing_skips(candidates, answers, 0, i);
}

/// A rate-limited probe ends the round: nothing is stored.
pub proof fn law_rate_limited_probe_stores_nothing(candidates: Seq<Seq<char>>, answers: Seq<ProbeResult>, i: int)
    requires
        0 <= i < candidates.len(),
        i < answers.len(),
        forall|k: int| 0 <= k < i ==> answers[k] == ProbeResult::NotFound,
        answers[i] == ProbeResult::RateLimited,
    ensures
        probing_from(candidates, answers, 0) == StepView::RateLimited,
{
    lemma_probing_skips(candidates, answers, 0, i);
}

/// When every candidate is probed and none exists, the person is marked
/// unresolved.
pub proof fn law_all_missing_marks_unresolved(candidates: Seq<Seq<char>>, answers: Seq<ProbeResult>)
    requires
        answers.len() == candidates.len(),
        forall|k: int| 0 <= k < answers.len() ==> answers[k] == ProbeResult::NotFound,
    ensures
        probing_from(candidates, answers, 0) == StepView::StoreUnresolved,
{
    lemma_probing_to_end(candidates, answers, 0);
}

proof fn lemma_probing_skips(candidates: Seq<Seq<char>>, answers: Seq<ProbeResult>, from: int, i: int)
    requires
        0 <= from <= i < candidates.len(),
        i < answers.len(),
        forall|k: int| from <= k < i ==> answers[k] == ProbeResult::NotFound,
    ensures
        probing_from(candidates, answers, from) == probing_from(candidates, answers, i),
    decreases i - from,
{
    if from < i {
        lemma_probing_skips(candidates, answers, from + 1, i);
    }
}

proof fn lemma_probing_to_end(candidates: Seq<Seq<char>>, answers: Seq<ProbeResult>, from: int)
    requires
        0 <= from,
        answers.len() == candidates.len(),
        forall|k: int| from <= k < answers.len() ==> answers[k] == ProbeResult::NotFound,
    ensures
        probing_from(candidates, answers, from) == StepView::StoreUnresolved,
    decreases candidates.len() - from,
{
    if from < candidates.len() {
        lemma_probing_to_end(candidates, answers, from + 1);
    }
}

// ---------------------------------------------------------------------------
// One source, one run
// ---------------------------------------------------------------------------

/// The count of people a source's resolution resolved.
#[derive(Debug, Clone, Copy, PartialEq, Eq, Structural)]
pub struct SourceTally {
    pub resolved: i32,
}

impl SourceTally {
    pub fn new() -> (r: SourceTally)
        ensures
            r.resolved == 0,
    {
        SourceTally { resolved: 0 }
    }

    /// Records how a person's resolution ended; says whether the source
    /// sleeps before the next person (after a rate-limited answer).
    pub fn record(&mut self, result: PersonResult) -> (sleep: bool)
        requires
            result == PersonResult::Resolved ==> old(self).resolved < i32::MAX,
        ensures
            final(self).resolved == old(self).resolved + if result == PersonResult::Resolved {
                1int
            } else {
                0int
            },
            sleep == (result == PersonResult::RateLimited),
    {
        match result {
            PersonResult::Resolved => {
                self.resolved = self.resolved + 1;
                false
            },
            PersonResult::RateLimited => true,
            _ => false,
        }
    }

    /// Contributions are backfilled once a source resolved anyone.
    pub fn wants_backfill(&self) -> (r: bool)
        ensures
            r == (self.resolved > 0),
    {
        self.resolved > 0
    }
}

/// The total a run records: the sum of what each source resolved, a failed
/// source (`None`) counting nothing.
pub open spec fn resolved_total(counts: Seq<Option<i32>>) -> int
    decreases counts.len(),
{
    if counts.len() == 0 {
        0
    } else {
        resolved_total(counts.drop_last()) + match counts.last() {
            Some(n) => n as int,
            None => 0,
        }
    }
}

/// Sums what each source resolved (each running total fits in `i32`, as
/// the run's `+=` needs).
pub fn total_resolved(counts: &Vec<Option<i32>>) -> (r: i32)
    requires
        forall|k: int|
            0 <= k <= counts@.len() ==> i32::MIN <= #[trigger] resolved_total(counts@.take(k)) <= i32::MAX,
    ensures
        r == resolved_total(counts@),
{
    let mut total: i32 = 0;
    let mut i: usize = 0;
    proof {
        assert(counts@.take(0) =~= Seq::<Option<i32>>::empty());
    }
    while i < counts.len()
        invariant
            i <= counts@.len(),
            forall|k: int|
                0 <= k <= counts@.len() ==> i32::MIN <= #[trigger] resolved_total(counts@.take(k)) <= i32::MAX,
            total == resolved_total(counts@.take(i as int)),
        decreases counts@.len() - i,
    {
        proof {
            assert(counts@.take(i as int + 1).drop_last() =~= counts@.take(i as int));
            assert(counts@.take(i as int + 1).last() == counts@[i as int]);
            assert(i32::MIN <= resolved_total(counts@.take(i as int + 1)) <= i32::MAX);
        }
        match counts[i] {
            Some(n) => {
                total = total + n;
            },
            None => {},
        }
        i = i + 1;
    }
    proof {
        assert(counts@.take(counts@.len() as int) =~= counts@);
    }
    total
}

} // verus!
