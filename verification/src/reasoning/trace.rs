//! The reasoning trace of a conversation, derived from its stored events:
//! one step per `step_seq`, in `step_seq` order.
use vstd::prelude::*;

use crate::seqs::{lemma_filter_members, lemma_filter_push};
use crate::text::{owned, str_eq};

verus! {

broadcast use vstd::std_specs::btree::group_btree_axioms;

/// A stored conversation event, with the payload fields the trace reads.
/// A field is `Some` when the payload has it with the expected JSON type;
/// the outcome fields hold the JSON text of whatever value the payload has.
#[derive(Debug, Clone)]
pub struct ConversationEvent {
    pub event_type: String,
    pub step_seq: Option<i32>,
    pub step_id: Option<String>,
    /// `text` (string).
    pub text: Option<String>,
    /// `part_index` (integer).
    pub part_index: Option<i64>,
    /// `tool_name` (string).
    pub tool_name: Option<String>,
    /// `call_id` (string).
    pub call_id: Option<String>,
    /// `arguments_json` (string).
    pub arguments_json: Option<String>,
    /// `result_summary`, as JSON text.
    pub result_summary: Option<String>,
    /// `duration_ms`, as JSON text.
    pub duration_ms: Option<String>,
    /// `success`, as JSON text.
    pub success: Option<String>,
}

/// What a step of the trace is.
#[derive(Debug, Clone)]
pub enum TraceKind {
    /// `"kind": "reasoning"`; `arguments` when a later `tool_call_started`
    /// event for the same step carried arguments.
    Reasoning { text: String, part_index: i64, arguments: Option<String> },
    /// `"kind": "tool"`.
    Tool { tool_name: String, call_id: String, arguments: String },
}

/// The fields a completed tool call adds to its step (JSON texts).
#[derive(Debug, Clone)]
pub struct ToolOutcome {
    pub result_summary: String,
    pub duration_ms: String,
    pub success: String,
}

/// A step of the reasoning trace.
#[derive(Debug, Clone)]
pub struct TraceStep {
    pub kind: TraceKind,
    pub step_id: String,
    pub outcome: Option<ToolOutcome>,
}

/// Abstract value of a trace step.
pub enum StepView {
    Reasoning {
        text: Seq<char>,
        part_index: i64,
        arguments: Option<Seq<char>>,
        step_id: Seq<char>,
        outcome: Option<(Seq<char>, Seq<char>, Seq<char>)>,
    },
    Tool {
        tool_name: Seq<char>,
        call_id: Seq<char>,
        arguments: Seq<char>,
        step_id: Seq<char>,
        outcome: Option<(Seq<char>, Seq<char>, Seq<char>)>,
    },
}

impl View for TraceStep {
    type V = StepView;

    open spec fn view(&self) -> StepView {
        let outcome = match self.outcome {
            Some(o) => Some((o.result_summary@, o.duration_ms@, o.success@)),
            None => None,
        };
        match self.kind {
            TraceKind::Reasoning { text, part_index, arguments } => StepView::Reasoning {
                text: text@,
                part_index,
                arguments: match arguments {
                    Some(a) => Some(a@),
                    None => None,
                },
                step_id: self.step_id@,
                outcome,
            },
            TraceKind::Tool { tool_name, call_id, arguments } => StepView::Tool {
                tool_name: tool_name@,
                call_id: call_id@,
                arguments: arguments@,
                step_id: self.step_id@,
                outcome,
            },
        }
    }
}

pub open spec fn str_or(o: Option<String>, d: Seq<char>) -> Seq<char> {
    match o {
        Some(s) => s@,
        None => d,
    }
}

/// The step a `thinking` event writes (it replaces whatever the step was).
pub open spec fn reasoning_step(e: ConversationEvent, id: Seq<char>) -> StepView {
    StepView::Reasoning {
        text: str_or(e.text, ""@),
        part_index: match e.part_index {
            Some(p) => p,
            None => 0,
        },
        arguments: None,
        step_id: id,
        outcome: None,
    }
}

/// The step a `tool_call_started` event writes (when the step is new).
pub open spec fn tool_step(e: ConversationEvent, id: Seq<char>) -> StepView {
    StepView::Tool {
        tool_name: str_or(e.tool_name, ""@),
        call_id: str_or(e.call_id, ""@),
        arguments: str_or(e.arguments_json, "{}"@),
        step_id: id,
        outcome: None,
    }
}

/// The fields a `tool_call_completed` event sets on its step.
pub open spec fn outcome_of(e: ConversationEvent) -> (Seq<char>, Seq<char>, Seq<char>) {
    (str_or(e.result_summary, "null"@), str_or(e.duration_ms, "null"@), str_or(e.success, "true"@))
}

pub open spec fn with_outcome(v: StepView, o: (Seq<char>, Seq<char>, Seq<char>)) -> StepView {
    match v {
        StepView::Reasoning { text, part_index, arguments, step_id, .. } => StepView::Reasoning {
            text,
            part_index,
            arguments,
            step_id,
            outcome: Some(o),
        },
        StepView::Tool { tool_name, call_id, arguments, step_id, .. } => StepView::Tool {
            tool_name,
            call_id,
            arguments,
            step_id,
            outcome: Some(o),
        },
    }
}

/// The arguments a `tool_call_started` event carries (`{}` when absent).
pub open spec fn started_arguments(e: ConversationEvent) -> Seq<char> {
    str_or(e.arguments_json, "{}"@)
}

/// A step given the arguments of a later `tool_call_started` event: a tool
/// step's arguments are replaced; a reasoning step records them.
pub open spec fn with_arguments(v: StepView, a: Seq<char>) -> StepView {
    match v {
        StepView::Reasoning { text, part_index, step_id, outcome, .. } => StepView::Reasoning {
            text,
            part_index,
            arguments: Some(a),
            step_id,
            outcome,
        },
        StepView::Tool { tool_name, call_id, step_id, outcome, .. } => StepView::Tool {
            tool_name,
            call_id,
            arguments: a,
            step_id,
            outcome,
        },
    }
}

/// Entries with a key below `k`.
pub open spec fn below(s: Seq<(i32, StepView)>, k: i32) -> Seq<(i32, StepView)> {
    s.filter(key_below(k))
}

pub open spec fn key_below(k: i32) -> spec_fn((i32, StepView)) -> bool {
    |e: (i32, StepView)| e.0 < k
}

pub open spec fn key_above(k: i32) -> spec_fn((i32, StepView)) -> bool {
    |e: (i32, StepView)| e.0 > k
}

/// Entries with a key above `k`.
pub open spec fn above(s: Seq<(i32, StepView)>, k: i32) -> Seq<(i32, StepView)> {
    s.filter(key_above(k))
}

/// `s` with the entry for `k` set to `v`.
pub open spec fn put(s: Seq<(i32, StepView)>, k: i32, v: StepView) -> Seq<(i32, StepView)> {
    below(s, k) + seq![(k, v)] + above(s, k)
}

/// The entry for `k`, if any.
pub open spec fn lookup(s: Seq<(i32, StepView)>, k: i32) -> Option<StepView>
    decreases s.len(),
{
    if s.len() == 0 {
        None
    } else if s.last().0 == k {
        Some(s.last().1)
    } else {
        lookup(s.drop_last(), k)
    }
}

/// The trace after one more event: a `thinking` event sets its step; a
/// `tool_call_started` event adds its step, or, when the step exists, sets
/// the arguments it carries unless they are `{}`; a
/// `tool_call_completed` event adds its outcome to an existing step. Events
/// without a `step_seq` or a `step_id`, and other events, change nothing.
pub open spec fn apply_event(s: Seq<(i32, StepView)>, e: ConversationEvent) -> Seq<(i32, StepView)> {
    match (e.step_seq, e.step_id) {
        (Some(k), Some(id)) => if e.event_type@ == "thinking"@ {
            put(s, k, reasoning_step(e, id@))
        } else if e.event_type@ == "tool_call_started"@ {
            match lookup(s, k) {
                Some(v) => if started_arguments(e) != "{}"@ {
                    put(s, k, with_arguments(v, started_arguments(e)))
                } else {
                    s
                },
                None => put(s, k, tool_step(e, id@)),
            }
        } else if e.event_type@ == "tool_call_completed"@ {
            match lookup(s, k) {
                Some(v) => put(s, k, with_outcome(v, outcome_of(e))),
                None => s,
            }
        } else {
            s
        },
        _ => s,
    }
}

/// The trace entries of a sequence of events, keyed by `step_seq`.
pub open spec fn trace_entries(events: Seq<ConversationEvent>) -> Seq<(i32, StepView)>
    decreases events.len(),
{
    if events.len() == 0 {
        seq![]
    } else {
        apply_event(trace_entries(events.drop_last()), events.last())
    }
}

/// Keys strictly increasing.
pub open spec fn sorted_keys(s: Seq<(i32, StepView)>) -> bool {
    forall|i: int, j: int| 0 <= i < j < s.len() ==> (#[trigger] s[i]).0 < (#[trigger] s[j]).0
}

pub open spec fn steps_view(v: Seq<TraceStep>) -> Seq<StepView> {
    v.map_values(|e: TraceStep| e@)
}

pub open spec fn values_of(s: Seq<(i32, StepView)>) -> Seq<StepView> {
    s.map_values(|e: (i32, StepView)| e.1)
}

fn dup_string(s: &String) -> (r: String)
    ensures
        r == *s,
{
    s.clone()
}

fn dup_opt(s: &Option<String>) -> (r: Option<String>)
    ensures
        r == *s,
{
    match s {
        Some(x) => Some(dup_string(x)),
        None => None,
    }
}

impl TraceStep {
    /// A copy of the step.
    pub fn duplicate(&self) -> (r: TraceStep)
        ensures
            r@ == self@,
    {
        let kind = match &self.kind {
            TraceKind::Reasoning { text, part_index, arguments } => TraceKind::Reasoning {
                text: dup_string(text),
                part_index: *part_index,
                arguments: dup_opt(arguments),
            },
            TraceKind::Tool { tool_name, call_id, arguments } => TraceKind::Tool {
                tool_name: dup_string(tool_name),
                call_id: dup_string(call_id),
                arguments: dup_string(arguments),
            },
        };
        let outcome = match &self.outcome {
            Some(o) => Some(
                ToolOutcome {
                    result_summary: dup_string(&o.result_summary),
                    duration_ms: dup_string(&o.duration_ms),
                    success: dup_string(&o.success),
                },
            ),
            None => None,
        };
        TraceStep { kind, step_id: dup_string(&self.step_id), outcome }
    }
}

fn text_or(o: &Option<String>, d: &str) -> (r: String)
    ensures
        r@ == match o {
            Some(s) => s@,
            None => d@,
        },
{
    match o {
        Some(s) => dup_string(s),
        None => owned(d),
    }
}

/// The steps held by step number model the trace entries `s`: `s` is sorted
/// by key and holds exactly the map's entries.
pub open spec fn models(m: Map<i32, TraceStep>, s: Seq<(i32, StepView)>) -> bool {
    &&& sorted_keys(s)
    &&& forall|k: i32| #[trigger] m.contains_key(k) ==> lookup(s, k) == Some(m[k]@)
    &&& forall|k: i32| #[trigger] lookup(s, k) is Some ==> m.contains_key(k)
}

/// In a sorted sequence, the entry found for a key is the one it holds.
proof fn lemma_lookup_contains(s: Seq<(i32, StepView)>, k: i32, v: StepView)
    requires
        sorted_keys(s),
    ensures
        lookup(s, k) == Some(v) <==> s.contains((k, v)),
    decreases s.len(),
{
    if s.len() > 0 {
        let t = s.drop_last();
        assert(sorted_keys(t));
        lemma_lookup_contains(t, k, v);
        let n = s.len() - 1;
        if s.last().0 == k {
            if s.contains((k, v)) {
                let i = choose|i: int| 0 <= i < s.len() && s[i] == (k, v);
                if i < n {
                    assert(s[i].0 < s[n].0);
                }
            }
            if lookup(s, k) == Some(v) {
                assert(s[n] == (k, v));
            }
        } else {
            if s.contains((k, v)) {
                let i = choose|i: int| 0 <= i < s.len() && s[i] == (k, v);
                assert(i < n);
                assert(t[i] == (k, v));
            }
            if t.contains((k, v)) {
                let i = choose|i: int| 0 <= i < t.len() && t[i] == (k, v);
                assert(s[i] == (k, v));
            }
        }
    }
}

/// Setting the entry for `k` leaves the entries for other keys as they were.
proof fn lemma_put_lookup(s: Seq<(i32, StepView)>, k: i32, v: StepView, j: i32)
    requires
        sorted_keys(s),
    ensures
        lookup(put(s, k, v), j) == if j == k {
            Some(v)
        } else {
            lookup(s, j)
        },
{
    broadcast use vstd::seq_lib::group_filter_ensures;

    lemma_put_sorted(s, k, v);
    if j != k {
        let p = put(s, k, v);
        let lo = below(s, k);
        let hi = above(s, k);
        assert(p =~= lo + seq![(k, v)] + hi);
        lemma_filter_members(s, key_below(k));
        lemma_filter_members(s, key_above(k));
        assert forall|w: StepView| p.contains((j, w)) <==> s.contains((j, w)) by {
            if p.contains((j, w)) {
                let i = choose|i: int| 0 <= i < p.len() && p[i] == (j, w);
                if i < lo.len() {
                    assert(lo[i] == (j, w));
                    assert(s.contains(lo[i]));
                } else {
                    assert(i > lo.len());
                    assert(hi[i - lo.len() - 1] == (j, w));
                    assert(s.contains(hi[i - lo.len() - 1]));
                }
            }
            if s.contains((j, w)) {
                let i = choose|i: int| 0 <= i < s.len() && s[i] == (j, w);
                if j < k {
                    assert(key_below(k)(s[i]));
                    assert(lo.contains(s[i]));
                    let m = choose|m: int| 0 <= m < lo.len() && lo[m] == s[i];
                    assert(p[m] == (j, w));
                } else {
                    assert(key_above(k)(s[i]));
                    assert(hi.contains(s[i]));
                    let m = choose|m: int| 0 <= m < hi.len() && hi[m] == s[i];
                    assert(p[lo.len() + 1 + m] == (j, w));
                }
            }
        }
        match lookup(p, j) {
            Some(w) => {
                lemma_lookup_contains(p, j, w);
                lemma_lookup_contains(s, j, w);
            },
            None => {
                if let Some(w) = lookup(s, j) {
                    lemma_lookup_contains(p, j, w);
                    lemma_lookup_contains(s, j, w);
                }
            },
        }
    }
}

proof fn lemma_put_models(m: Map<i32, TraceStep>, s: Seq<(i32, StepView)>, k: i32, v: TraceStep)
    requires
        models(m, s),
    ensures
        models(m.insert(k, v), put(s, k, v@)),
{
    lemma_put_sorted(s, k, v@);
    assert forall|j: i32| lookup(put(s, k, v@), j) == if j == k {
        Some(v@)
    } else {
        lookup(s, j)
    } by {
        lemma_put_lookup(s, k, v@, j);
    }
}

/// Two sorted sequences with the same entries are equal.
proof fn lemma_sorted_same_entries(a: Seq<(i32, StepView)>, b: Seq<(i32, StepView)>)
    requires
        sorted_keys(a),
        sorted_keys(b),
        forall|e: (i32, StepView)| a.contains(e) <==> b.contains(e),
    ensures
        a == b,
    decreases a.len(),
{
    if a.len() == 0 {
        if b.len() > 0 {
            assert(b.contains(b[0]));
        }
        assert(a =~= b);
    } else {
        assert(b.len() > 0) by {
            assert(a.contains(a[0]));
        }
        let na = a.len() - 1;
        let nb = b.len() - 1;
        assert(a.contains(a[na]));
        assert(b.contains(b[nb]));
        let ib = choose|i: int| 0 <= i < b.len() && b[i] == a[na];
        let ia = choose|i: int| 0 <= i < a.len() && a[i] == b[nb];
        if ia < na {
            assert(a[ia].0 < a[na].0);
        }
        if ib < nb {
            assert(b[ib].0 < b[nb].0);
        }
        assert(a[na] == b[nb]);
        let a2 = a.drop_last();
        let b2 = b.drop_last();
        assert(sorted_keys(a2));
        assert(sorted_keys(b2));
        assert forall|e: (i32, StepView)| a2.contains(e) <==> b2.contains(e) by {
            if a2.contains(e) {
                let i = choose|i: int| 0 <= i < a2.len() && a2[i] == e;
                assert(a[i] == e);
                assert(a[i].0 < a[na].0);
                assert(b.contains(e));
                let j = choose|j: int| 0 <= j < b.len() && b[j] == e;
                assert(j != nb);
                assert(b2[j] == e);
            }
            if b2.contains(e) {
                let i = choose|i: int| 0 <= i < b2.len() && b2[i] == e;
                assert(b[i] == e);
                assert(b[i].0 < b[nb].0);
                assert(a.contains(e));
                let j = choose|j: int| 0 <= j < a.len() && a[j] == e;
                assert(j != na);
                assert(a2[j] == e);
            }
        }
        lemma_sorted_same_entries(a2, b2);
        assert(a =~= a2.push(a[na]));
        assert(b =~= b2.push(b[nb]));
    }
}

/// The trace after one more event.
fn apply(steps: &mut std::collections::BTreeMap<i32, TraceStep>, Ghost(s): Ghost<Seq<(i32, StepView)>>, e: &ConversationEvent)
    requires
        models(old(steps)@, s),
    ensures
        models(final(steps)@, apply_event(s, *e)),
{
    proof {
        reveal_strlit("thinking");
        reveal_strlit("tool_call_started");
        reveal_strlit("tool_call_completed");
        reveal_strlit("");
        reveal_strlit("{}");
        reveal_strlit("null");
        reveal_strlit("true");
    }
    let k = match e.step_seq {
        Some(k) => k,
        None => return ,
    };
    let id = match &e.step_id {
        Some(id) => id,
        None => return ,
    };
    let ghost m0 = steps@;
    if str_eq(e.event_type.as_str(), "thinking") {
        let step = TraceStep {
            kind: TraceKind::Reasoning {
                text: text_or(&e.text, ""),
                part_index: match e.part_index {
                    Some(p) => p,
                    None => 0,
                },
                arguments: None,
            },
            step_id: dup_string(id),
            outcome: None,
        };
        proof {
            lemma_put_models(m0, s, k, step);
        }
        steps.insert(k, step);
    } else if str_eq(e.event_type.as_str(), "tool_call_started") {
        let current = match steps.get(&k) {
            Some(c) => Some(c.duplicate()),
            None => None,
        };
        match current {
            Some(cur) => {
                let args = text_or(&e.arguments_json, "{}");
                if !str_eq(args.as_str(), "{}") {
                    let kind = match &cur.kind {
                        TraceKind::Reasoning { text, part_index, .. } => TraceKind::Reasoning {
                            text: dup_string(text),
                            part_index: *part_index,
                            arguments: Some(args),
                        },
                        TraceKind::Tool { tool_name, call_id, .. } => TraceKind::Tool {
                            tool_name: dup_string(tool_name),
                            call_id: dup_string(call_id),
                            arguments: args,
                        },
                    };
                    let step = TraceStep { kind, step_id: dup_string(&cur.step_id), outcome: cur.outcome };
                    proof {
                        lemma_put_models(m0, s, k, step);
                    }
                    steps.insert(k, step);
                }
            },
            None => {
                let step = TraceStep {
                    kind: TraceKind::Tool {
                        tool_name: text_or(&e.tool_name, ""),
                        call_id: text_or(&e.call_id, ""),
                        arguments: text_or(&e.arguments_json, "{}"),
                    },
                    step_id: dup_string(id),
                    outcome: None,
                };
                proof {
                    lemma_put_models(m0, s, k, step);
                }
                steps.insert(k, step);
            },
        }
    } else if str_eq(e.event_type.as_str(), "tool_call_completed") {
        let current = match steps.get(&k) {
            Some(c) => Some(c.duplicate()),
            None => None,
        };
        if let Some(cur) = current {
            let mut step = cur;
            step.outcome = Some(
                ToolOutcome {
                    result_summary: text_or(&e.result_summary, "null"),
                    duration_ms: text_or(&e.duration_ms, "null"),
                    success: text_or(&e.success, "true"),
                },
            );
            proof {
                lemma_put_models(m0, s, k, step);
            }
            steps.insert(k, step);
        }
    }
}

/// The keys a step map's iterator yields increase.
proof fn lemma_iter_keys_increase(r: Seq<(&i32, &TraceStep)>)
    requires
        vstd::std_specs::btree::increasing_seq(r.map_values(|kv: (&i32, &TraceStep)| *kv.0)),
    ensures
        forall|i: int, j: int| 0 <= i < j < r.len() ==> *r[i].0 < *r[j].0,
{
    broadcast use vstd::std_specs::btree::group_btree_axioms, vstd::laws_cmp::group_laws_cmp;

    assert forall|i: int, j: int| 0 <= i < j < r.len() implies *r[i].0 < *r[j].0 by {
        let ks = r.map_values(|kv: (&i32, &TraceStep)| *kv.0);
        assert(ks[i] == *r[i].0);
        assert(ks[j] == *r[j].0);
        assert(vstd::std_specs::cmp::OrdSpec::cmp_spec(&ks[i], &ks[j]) is Less);
    }
}

/// Derives the reasoning trace from a conversation's events: one step per
/// `step_seq`, in `step_seq` order. A `thinking` event always overwrites its
/// step (later events carry more complete text); a `tool_call_started`
/// event creates its step once, and later sets the arguments it carries
/// unless they are `{}`; a `tool_call_completed` event adds the outcome to
/// an existing step.
pub fn derive_trace_from_events(events: &Vec<ConversationEvent>) -> (r: Vec<TraceStep>)
    ensures
        steps_view(r@) == values_of(trace_entries(events@)),
{
    let mut steps: std::collections::BTreeMap<i32, TraceStep> = std::collections::BTreeMap::new();
    let mut i: usize = 0;
    proof {
        assert(trace_entries(events@.take(0)) =~= Seq::<(i32, StepView)>::empty());
    }
    while i < events.len()
        invariant
            i <= events@.len(),
            models(steps@, trace_entries(events@.take(i as int))),
        decreases events.len() - i,
    {
        proof {
            assert(events@.take(i + 1).drop_last() =~= events@.take(i as int));
        }
        apply(&mut steps, Ghost(trace_entries(events@.take(i as int))), &events[i]);
        i = i + 1;
    }
    proof {
        assert(events@.take(events@.len() as int) =~= events@);
    }
    let ghost s = trace_entries(events@);
    let iter = steps.iter();
    let ghost r = vstd::std_specs::iter::IteratorSpec::remaining(&iter);
    proof {
        lemma_iter_keys_increase(r);
    }
    let mut out: Vec<TraceStep> = Vec::new();
    for kv in it: iter
        invariant
            it.seq() == r,
            out@.len() == it.index(),
            forall|j: int| 0 <= j < it.index() ==> out@[j]@ == (*r[j].1)@,
    {
        out.push(kv.1.duplicate());
    }
    proof {
        let b = r.map_values(|kv: (&i32, &TraceStep)| (*kv.0, (*kv.1)@));
        assert(sorted_keys(b)) by {
            assert forall|x: int, y: int| 0 <= x < y < b.len() implies (#[trigger] b[x]).0 < (#[trigger] b[y]).0 by {
                assert(*r[x].0 < *r[y].0);
            }
        }
        assert forall|e: (i32, StepView)| s.contains(e) <==> b.contains(e) by {
            lemma_lookup_contains(s, e.0, e.1);
            if b.contains(e) {
                let x = choose|x: int| 0 <= x < b.len() && b[x] == e;
                assert(steps@.contains_key(*r[x].0) && steps@[*r[x].0] == *r[x].1);
            }
            if s.contains(e) {
                assert(steps@.contains_key(e.0));
                assert(r.contains((&e.0, &steps@[e.0])));
                let x = choose|x: int| 0 <= x < r.len() && r[x] == (&e.0, &steps@[e.0]);
                assert(b[x] == e);
            }
        }
        lemma_sorted_same_entries(s, b);
        assert(steps_view(out@) =~= values_of(s));
    }
    out
}

proof fn lemma_filter_sorted(s: Seq<(i32, StepView)>, pred: spec_fn((i32, StepView)) -> bool)
    requires
        sorted_keys(s),
    ensures
        sorted_keys(s.filter(pred)),
    decreases s.len(),
{
    if s.len() > 0 {
        let t = s.drop_last();
        assert(sorted_keys(t));
        lemma_filter_sorted(t, pred);
        assert(s =~= t.push(s.last()));
        lemma_filter_push(t, pred, s.last());
        if pred(s.last()) {
            lemma_filter_members(t, pred);
            assert forall|i: int, j: int| 0 <= i < j < s.filter(pred).len() implies (
            #[trigger] s.filter(pred)[i]).0 < (#[trigger] s.filter(pred)[j]).0 by {
                if j == s.filter(pred).len() - 1 {
                    let x = t.filter(pred)[i];
                    assert(t.contains(x));
                    let m = choose|m: int| 0 <= m < t.len() && t[m] == x;
                    assert(s[m] == x);
                }
            }
        }
    }
}

proof fn lemma_put_sorted(s: Seq<(i32, StepView)>, k: i32, v: StepView)
    requires
        sorted_keys(s),
    ensures
        sorted_keys(put(s, k, v)),
        lookup(put(s, k, v), k) == Some(v),
{
    lemma_filter_sorted(s, key_below(k));
    lemma_filter_sorted(s, key_above(k));
    lemma_filter_members(s, key_below(k));
    lemma_filter_members(s, key_above(k));
    let lo = below(s, k);
    let hi = above(s, k);
    let p = put(s, k, v);
    assert forall|i: int, j: int| 0 <= i < j < p.len() implies (#[trigger] p[i]).0 < (#[trigger] p[j]).0 by {
        if j < lo.len() {
            assert(p[i] == lo[i] && p[j] == lo[j]);
        } else if j == lo.len() {
            assert(p[i] == lo[i]);
            assert(key_below(k)(lo[i]));
        } else if i < lo.len() {
            assert(p[i] == lo[i] && p[j] == hi[j - lo.len() - 1]);
            assert(key_below(k)(lo[i]));
            assert(key_above(k)(hi[j - lo.len() - 1]));
        } else if i == lo.len() {
            assert(key_above(k)(hi[j - lo.len() - 1]));
        } else {
            assert(p[i] == hi[i - lo.len() - 1] && p[j] == hi[j - lo.len() - 1]);
        }
    }
    assert forall|i: int| 0 <= i < hi.len() implies (#[trigger] hi[i]).0 != k by {
        assert(key_above(k)(hi[i]));
    }
    assert(p =~= lo.push((k, v)) + hi);
    lemma_lookup_sorted_tail(lo.push((k, v)), hi, k);
}

proof fn lemma_lookup_sorted_tail(a: Seq<(i32, StepView)>, b: Seq<(i32, StepView)>, k: i32)
    requires
        forall|i: int| 0 <= i < b.len() ==> (#[trigger] b[i]).0 != k,
    ensures
        lookup(a + b, k) == lookup(a, k),
    decreases b.len(),
{
    if b.len() > 0 {
        assert((a + b).drop_last() =~= a + b.drop_last());
        lemma_lookup_sorted_tail(a, b.drop_last(), k);
    } else {
        assert(a + b =~= a);
    }
}

/// The trace holds at most one step per `step_seq`, in increasing
/// `step_seq` order, whatever the events.
pub proof fn law_trace_ordered_by_step_seq(events: Seq<ConversationEvent>)
    ensures
        sorted_keys(trace_entries(events)),
    decreases events.len(),
{
    if events.len() > 0 {
        law_trace_ordered_by_step_seq(events.drop_last());
        let s = trace_entries(events.drop_last());
        let e = events.last();
        match (e.step_seq, e.step_id) {
            (Some(k), Some(id)) => {
                lemma_put_sorted(s, k, reasoning_step(e, id@));
                lemma_put_sorted(s, k, tool_step(e, id@));
                match lookup(s, k) {
                    Some(v) => {
                        lemma_put_sorted(s, k, with_outcome(v, outcome_of(e)));
                        lemma_put_sorted(s, k, with_arguments(v, started_arguments(e)));
                    },
                    None => {},
                }
            },
            _ => {},
        }
    }
}

/// A later `tool_call_started` event for an existing step sets the
/// arguments it carries, unless they are `{}`.
pub proof fn law_started_event_updates_arguments(events: Seq<ConversationEvent>, e: ConversationEvent)
    requires
        e.event_type@ == "tool_call_started"@,
        e.step_seq is Some,
        e.step_id is Some,
        lookup(trace_entries(events), e.step_seq->0) is Some,
        started_arguments(e) != "{}"@,
    ensures
        lookup(trace_entries(events.push(e)), e.step_seq->0) == Some(
            with_arguments(lookup(trace_entries(events), e.step_seq->0)->0, started_arguments(e)),
        ),
{
    law_trace_ordered_by_step_seq(events);
    assert(events.push(e).drop_last() =~= events);
    reveal_strlit("thinking");
    reveal_strlit("tool_call_started");
    assert("thinking"@ != "tool_call_started"@) by {
        assert("thinking"@[1] != "tool_call_started"@[1]);
    }
    assert(trace_entries(events.push(e)) == apply_event(trace_entries(events), e));
    lemma_put_sorted(
        trace_entries(events),
        e.step_seq->0,
        with_arguments(lookup(trace_entries(events), e.step_seq->0)->0, started_arguments(e)),
    );
}

/// A `thinking` event with an identity sets its step, whatever was there:
/// later reasoning text replaces earlier text.
pub proof fn law_thinking_overwrites(events: Seq<ConversationEvent>, e: ConversationEvent)
    requires
        e.event_type@ == "thinking"@,
        e.step_seq is Some,
        e.step_id is Some,
    ensures
        lookup(trace_entries(events.push(e)), e.step_seq->0) == Some(
            reasoning_step(e, e.step_id->0@),
        ),
{
    law_trace_ordered_by_step_seq(events);
    assert(events.push(e).drop_last() =~= events);
    lemma_put_sorted(trace_entries(events), e.step_seq->0, reasoning_step(e, e.step_id->0@));
}

} // verus!
