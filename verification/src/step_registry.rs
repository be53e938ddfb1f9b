//! Stable identities and display ordering for the steps of an agentic query.
//!
//! Each logical step (reasoning block or tool call) gets a unique `step_id`
//! and a monotonically increasing `step_seq`. Updates to existing steps
//! (cumulative thinking text, tool completion) reuse the identity first given.
use vstd::prelude::*;

use crate::text::{
    all_digits, chars_have_prefix, chars_utf8_len, dec, dec_int, digit_char, digit_value, digits_value,
    has_prefix, is_digit, owned, push_i64, push_str, push_u64, string_from_range, to_chars, utf8_len,
};

verus! {

broadcast use vstd::std_specs::hash::group_hash_axioms;

/// Identity assigned to an event.
pub struct StepIdentity {
    pub step_id: String,
    pub step_seq: i32,
}

struct ThinkingState {
    generation: u32,
    text_prefix: String,
}

/// Assigns stable identities and display ordering to agentic query steps.
pub struct StepRegistry {
    next_seq: i32,
    /// `(step_id, step_seq)`; a later entry for the same id supersedes an
    /// earlier one. Step ids are text, so they are kept in a `Vec` searched
    /// by id: a hash map keyed by `String` gives no provable lookups.
    steps: Vec<(String, i32)>,
    /// Latest reasoning block per part index.
    thinking: std::collections::HashMap<i32, ThinkingState>,
}

/// Abstract state of a registry.
pub struct RegistryView {
    pub next_seq: int,
    pub steps: Seq<(Seq<char>, i32)>,
    /// `part_index` to `(generation, text_prefix)`.
    pub thinking: Map<i32, (u32, Seq<char>)>,
}

impl View for StepRegistry {
    type V = RegistryView;

    closed spec fn view(&self) -> RegistryView {
        RegistryView {
            next_seq: self.next_seq as int,
            steps: self.steps@.map_values(|p: (String, i32)| (p.0@, p.1)),
            thinking: self.thinking@.map_values(|t: ThinkingState| (t.generation, t.text_prefix@)),
        }
    }
}

/// Step id of a tool call.
pub open spec fn tool_id(call_id: Seq<char>) -> Seq<char> {
    "tool-"@ + call_id
}

/// Step id of a reasoning block.
pub open spec fn think_id(part_index: i32, generation: u32) -> Seq<char> {
    "think-"@ + dec_int(part_index as int) + "-"@ + dec(generation as nat)
}

/// The first 80 characters of a text.
pub open spec fn prefix80(s: Seq<char>) -> Seq<char> {
    if s.len() <= 80 {
        s
    } else {
        s.take(80)
    }
}


/// Index of the latest entry for `id`.
pub open spec fn find_step(steps: Seq<(Seq<char>, i32)>, id: Seq<char>) -> Option<int>
    decreases steps.len(),
{
    if steps.len() == 0 {
        None
    } else if steps.last().0 == id {
        Some(steps.len() - 1)
    } else {
        find_step(steps.drop_last(), id)
    }
}

/// The sequence number recorded for a step id, if any.
pub open spec fn seq_of(v: RegistryView, id: Seq<char>) -> Option<i32> {
    match find_step(v.steps, id) {
        Some(i) => Some(v.steps[i].1),
        None => None,
    }
}

/// Well-formedness: recorded sequence numbers lie below `next_seq` and every
/// generation was issued with a sequence number.
pub open spec fn registry_wf(v: RegistryView) -> bool {
    &&& 0 <= v.next_seq <= i32::MAX
    &&& forall|i: int| 0 <= i < v.steps.len() ==> 0 <= (#[trigger] v.steps[i]).1 < v.next_seq
    &&& forall|i: int, j: int| 0 <= i < j < v.steps.len() ==> (#[trigger] v.steps[i]).1 < (#[trigger] v.steps[j]).1
    &&& forall|p: i32| #[trigger] v.thinking.contains_key(p) ==> (v.thinking[p].0 as int) < v.next_seq
}

/// Identity of a step id: reuse the recorded one, or record a new one with
/// the next sequence number.
pub open spec fn assign(v: RegistryView, id: Seq<char>) -> (RegistryView, Seq<char>, int) {
    match find_step(v.steps, id) {
        Some(i) => (v, id, v.steps[i].1 as int),
        None => (
            RegistryView { next_seq: v.next_seq + 1, steps: v.steps.push((id, v.next_seq as i32)), ..v },
            id,
            v.next_seq,
        ),
    }
}

/// A new reasoning block (generation `generation`) for `part_index`.
pub open spec fn new_generation(
    v: RegistryView,
    part_index: i32,
    generation: u32,
    text: Seq<char>,
) -> (RegistryView, Seq<char>, int) {
    let id = think_id(part_index, generation);
    (
        RegistryView {
            next_seq: v.next_seq + 1,
            steps: v.steps.push((id, v.next_seq as i32)),
            thinking: v.thinking.insert(part_index, (generation, prefix80(text))),
        },
        id,
        v.next_seq,
    )
}

/// A thinking event that continues the recorded text of its reasoning block
/// (either text a prefix of the other) whose step is recorded: it takes no
/// new sequence number.
pub open spec fn thinking_reuses(v: RegistryView, part_index: i32, text: Seq<char>) -> bool {
    if v.thinking.contains_key(part_index) {
        let st = v.thinking[part_index];
        (has_prefix(text, st.1) || has_prefix(st.1, text)) && find_step(v.steps, think_id(part_index, st.0))
            is Some
    } else {
        false
    }
}

/// The effect of a thinking event.
pub open spec fn thinking_spec(v: RegistryView, part_index: i32, text: Seq<char>) -> (
    RegistryView,
    Seq<char>,
    int,
) {
    if v.thinking.contains_key(part_index) {
        let st = v.thinking[part_index];
        let id = think_id(part_index, st.0);
        if (has_prefix(text, st.1) || has_prefix(st.1, text)) && find_step(v.steps, id) is Some {
            let v2 = if utf8_len(text) > utf8_len(st.1) {
                RegistryView { thinking: v.thinking.insert(part_index, (st.0, prefix80(text))), ..v }
            } else {
                v
            };
            (v2, id, v.steps[find_step(v.steps, id)->0].1 as int)
        } else {
            new_generation(v, part_index, (st.0 + 1) as u32, text)
        }
    } else {
        new_generation(v, part_index, 0, text)
    }
}

impl StepRegistry {
    pub closed spec fn wf(&self) -> bool {
        registry_wf(self@)
    }

    /// An empty registry.
    pub fn new() -> (r: Self)
        ensures
            r.wf(),
            r@.next_seq == 0,
            r@.steps.len() == 0,
            r@.thinking == Map::<i32, (u32, Seq<char>)>::empty(),
    {
        let r = StepRegistry { next_seq: 0, steps: Vec::new(), thinking: std::collections::HashMap::new() };
        proof {
            assert(r@.steps =~= Seq::<(Seq<char>, i32)>::empty());
            assert(r@.thinking =~= Map::<i32, (u32, Seq<char>)>::empty());
        }
        r
    }

    fn find_step_index(&self, id: &str) -> (r: Option<usize>)
        ensures
            match r {
                Some(i) => find_step(self@.steps, id@) == Some(i as int) && i < self.steps@.len(),
                None => find_step(self@.steps, id@) is None,
            },
    {
        let ghost s = self@.steps;
        let target = to_chars(id);
        let mut i = self.steps.len();
        proof {
            assert(s.take(i as int) =~= s);
        }
        while i > 0
            invariant
                i <= self.steps@.len(),
                s == self@.steps,
                s.len() == self.steps@.len(),
                target@ == id@,
                find_step(s, id@) == find_step(s.take(i as int), id@),
            decreases i,
        {
            let key = to_chars(self.steps[i - 1].0.as_str());
            proof {
                assert(s[i - 1].0 == self.steps@[i - 1].0@);
                assert(s.take(i as int).last() == s[i - 1]);
                assert(s.take(i as int).drop_last() =~= s.take(i - 1));
            }
            if crate::text::chars_eq(&key, &target) {
                return Some(i - 1);
            }
            i = i - 1;
        }
        None
    }

    /// Records a new step with the next sequence number.
    fn record_new(&mut self, step_id: String) -> (r: i32)
        requires
            old(self).wf(),
            old(self)@.next_seq < i32::MAX,
        ensures
            final(self)@ == (RegistryView {
                next_seq: old(self)@.next_seq + 1,
                steps: old(self)@.steps.push((step_id@, old(self)@.next_seq as i32)),
                ..old(self)@
            }),
            r as int == old(self)@.next_seq,
            final(self).wf(),
    {
        let seq = self.next_seq;
        self.next_seq = self.next_seq + 1;
        let ghost id = step_id@;
        self.steps.push((step_id, seq));
        proof {
            assert(self@.steps =~= old(self)@.steps.push((id, seq)));
            assert(self@.thinking =~= old(self)@.thinking);
        }
        seq
    }

    /// Whether another step can be numbered (sequence numbers are `i32`).
    pub fn has_room(&self) -> (r: bool)
        ensures
            r == (self@.next_seq < i32::MAX),
    {
        self.next_seq < i32::MAX
    }

    /// Assigns identity for a tool call started event. Idempotent: repeated
    /// calls for the same `call_id` reuse the identity first given.
    pub fn tool_started(&mut self, call_id: &str) -> (r: StepIdentity)
        requires
            old(self).wf(),
            find_step(old(self)@.steps, tool_id(call_id@)) is None ==> old(self)@.next_seq < i32::MAX,
        ensures
            final(self).wf(),
            final(self)@ == assign(old(self)@, tool_id(call_id@)).0,
            r.step_id@ == tool_id(call_id@),
            r.step_seq as int == assign(old(self)@, tool_id(call_id@)).2,
    {
        let mut step_id = owned("tool-");
        push_str(&mut step_id, call_id);
        match self.find_step_index(step_id.as_str()) {
            Some(i) => {
                let step_seq = self.steps[i].1;
                StepIdentity { step_id, step_seq }
            },
            None => {
                let step_seq = self.record_new(step_id.clone());
                StepIdentity { step_id, step_seq }
            },
        }
    }

    /// Assigns identity for a tool call completed event, reusing the
    /// sequence number of the started event when there was one.
    pub fn tool_completed(&mut self, call_id: &str) -> (r: StepIdentity)
        requires
            old(self).wf(),
            find_step(old(self)@.steps, tool_id(call_id@)) is None ==> old(self)@.next_seq < i32::MAX,
        ensures
            final(self).wf(),
            final(self)@ == assign(old(self)@, tool_id(call_id@)).0,
            r.step_id@ == tool_id(call_id@),
            r.step_seq as int == assign(old(self)@, tool_id(call_id@)).2,
    {
        let mut step_id = owned("tool-");
        push_str(&mut step_id, call_id);
        match self.find_step_index(step_id.as_str()) {
            Some(i) => {
                let step_seq = self.steps[i].1;
                StepIdentity { step_id, step_seq }
            },
            None => {
                let step_seq = self.record_new(step_id.clone());
                StepIdentity { step_id, step_seq }
            },
        }
    }

    fn render_think_id(part_index: i32, generation: u32) -> (r: String)
        ensures
            r@ == think_id(part_index, generation),
    {
        let mut s = owned("think-");
        push_i64(&mut s, part_index as i64);
        push_str(&mut s, "-");
        push_u64(&mut s, generation as u64);
        s
    }

    fn prefix_of(text: &str) -> (r: String)
        ensures
            r@ == prefix80(text@),
    {
        let v = to_chars(text);
        if v.len() <= 80 {
            string_from_range(&v, 0, v.len())
        } else {
            string_from_range(&v, 0, 80)
        }
    }

    fn start_generation(&mut self, part_index: i32, generation: u32, text: &str) -> (r: StepIdentity)
        requires
            old(self).wf(),
            old(self)@.next_seq < i32::MAX,
            (generation as int) <= old(self)@.next_seq,
        ensures
            final(self).wf(),
            final(self)@ == new_generation(old(self)@, part_index, generation, text@).0,
            r.step_id@ == new_generation(old(self)@, part_index, generation, text@).1,
            r.step_seq as int == new_generation(old(self)@, part_index, generation, text@).2,
    {
        let ghost old_v = self@;
        let step_id = Self::render_think_id(part_index, generation);
        let step_seq = self.record_new(step_id.clone());
        let ghost mid = self@;
        let prefix = Self::prefix_of(text);
        let ghost pv = prefix@;
        self.thinking.insert(part_index, ThinkingState { generation, text_prefix: prefix });
        proof {
            assert(self@.thinking =~= old_v.thinking.insert(part_index, (generation, pv)));
            assert(self@.steps =~= mid.steps);
        }
        StepIdentity { step_id, step_seq }
    }

    /// Assigns identity for a thinking event: the existing identity when this
    /// is a cumulative update of the same reasoning block, a new generation
    /// when the part index has been recycled.
    pub fn thinking_step(&mut self, part_index: i32, text: &str) -> (r: StepIdentity)
        requires
            old(self).wf(),
            !thinking_reuses(old(self)@, part_index, text@) ==> old(self)@.next_seq < i32::MAX,
        ensures
            final(self).wf(),
            final(self)@ == thinking_spec(old(self)@, part_index, text@).0,
            r.step_id@ == thinking_spec(old(self)@, part_index, text@).1,
            r.step_seq as int == thinking_spec(old(self)@, part_index, text@).2,
    {
        let found = match self.thinking.get(&part_index) {
            Some(st) => Some((st.generation, to_chars(st.text_prefix.as_str()))),
            None => None,
        };
        match found {
            Some((generation, prefix_chars)) => {
                let text_chars = to_chars(text);
                proof {
                    assert(self@.thinking.contains_key(part_index));
                    assert(self@.thinking[part_index] == (generation, prefix_chars@));
                }
                let is_continuation = chars_have_prefix(&text_chars, &prefix_chars)
                    || chars_have_prefix(&prefix_chars, &text_chars);
                if is_continuation {
                    let step_id = Self::render_think_id(part_index, generation);
                    match self.find_step_index(step_id.as_str()) {
                        Some(si) => {
                            let step_seq = self.steps[si].1;
                            if chars_utf8_len(&text_chars) > chars_utf8_len(&prefix_chars) {
                                let ghost old_v = self@;
                                let prefix = Self::prefix_of(text);
                                let ghost pv = prefix@;
                                self.thinking.insert(part_index, ThinkingState { generation, text_prefix: prefix });
                                proof {
                                    assert(self@.thinking =~= old_v.thinking.insert(part_index, (generation, pv)));
                                    assert(self@.steps =~= old_v.steps);
                                }
                            }
                            return StepIdentity { step_id, step_seq };
                        },
                        None => {},
                    }
                }
                proof {
                    assert(self@.thinking[part_index].0 < self@.next_seq);
                }
                self.start_generation(part_index, generation + 1, text)
            },
            None => self.start_generation(part_index, 0, text),
        }
    }
}

// ---------------------------------------------------------------------------
// Laws
// ---------------------------------------------------------------------------

proof fn lemma_find_step_push(steps: Seq<(Seq<char>, i32)>, entry: (Seq<char>, i32), id: Seq<char>)
    ensures
        find_step(steps.push(entry), id) == if entry.0 == id {
            Some(steps.len() as int)
        } else {
            find_step(steps, id)
        },
{
    assert(steps.push(entry).drop_last() =~= steps);
}

proof fn lemma_find_step_bounds(steps: Seq<(Seq<char>, i32)>, id: Seq<char>)
    ensures
        find_step(steps, id) matches Some(i) ==> 0 <= i < steps.len() && steps[i].0 == id,
    decreases steps.len(),
{
    if steps.len() > 0 && steps.last().0 != id {
        lemma_find_step_bounds(steps.drop_last(), id);
    }
}

/// Repeating a tool event for the same call id leaves the registry as it is
/// and yields the same identity (tool events are idempotent, and a completed
/// event shares the identity of its started event).
pub proof fn law_tool_event_idempotent(v: RegistryView, call_id: Seq<char>)
    requires
        registry_wf(v),
        find_step(v.steps, tool_id(call_id)) is None ==> v.next_seq < i32::MAX,
    ensures
        ({
            let (v1, id1, s1) = assign(v, tool_id(call_id));
            assign(v1, tool_id(call_id)) == (v1, id1, s1)
        }),
{
    let id = tool_id(call_id);
    match find_step(v.steps, id) {
        Some(i) => {},
        None => {
            lemma_find_step_push(v.steps, (id, v.next_seq as i32), id);
        },
    }
}

/// A step id that was not recorded before gets exactly the next sequence
/// number, and the next sequence number then grows by one: sequence numbers
/// of new steps strictly increase in the order the steps appear.
pub proof fn law_new_step_gets_next_seq(v: RegistryView, id: Seq<char>)
    requires
        registry_wf(v),
        v.next_seq < i32::MAX,
        seq_of(v, id) is None,
    ensures
        assign(v, id).2 == v.next_seq,
        assign(v, id).0.next_seq == v.next_seq + 1,
        forall|other: Seq<char>|
            #[trigger] seq_of(v, other) is Some ==> seq_of(v, other)->0 < assign(v, id).2,
{
    assert forall|other: Seq<char>| #[trigger] seq_of(v, other) is Some implies seq_of(v, other)->0
        < assign(v, id).2 by {
        lemma_find_step_bounds(v.steps, other);
    }
}

/// In a well-formed registry, two different step ids never share a sequence
/// number.
pub proof fn law_distinct_steps_distinct_seqs(v: RegistryView, a: Seq<char>, b: Seq<char>)
    requires
        registry_wf(v),
        a != b,
        seq_of(v, a) is Some,
        seq_of(v, b) is Some,
    ensures
        seq_of(v, a) != seq_of(v, b),
{
    lemma_find_step_bounds(v.steps, a);
    lemma_find_step_bounds(v.steps, b);
    let i = find_step(v.steps, a)->0;
    let j = find_step(v.steps, b)->0;
    assert(i != j);
    if i < j {
        assert(v.steps[i].1 < v.steps[j].1);
    } else {
        assert(v.steps[j].1 < v.steps[i].1);
    }
}

/// A tool event for a call whose step is recorded returns the recorded
/// identity and takes no number: the registry is left as it is.
pub proof fn law_recorded_tool_event_reuses_identity(v: RegistryView, call_id: Seq<char>)
    requires
        registry_wf(v),
        seq_of(v, tool_id(call_id)) is Some,
    ensures
        assign(v, tool_id(call_id)) == (v, tool_id(call_id), seq_of(v, tool_id(call_id))->0 as int),
{
}

/// After a thinking event, the latest reasoning state of its part index
/// names the step that was returned.
pub proof fn law_thinking_records_state(v: RegistryView, part_index: i32, text: Seq<char>)
    requires
        registry_wf(v),
        v.next_seq < i32::MAX,
    ensures
        ({
            let (v1, id, s) = thinking_spec(v, part_index, text);
            &&& v1.thinking.contains_key(part_index)
            &&& think_id(part_index, v1.thinking[part_index].0) == id
            &&& seq_of(v1, id) == Some(s as i32)
        }),
{
    if v.thinking.contains_key(part_index) {
        let st = v.thinking[part_index];
        let tid = think_id(part_index, st.0);
        if !((has_prefix(text, st.1) || has_prefix(st.1, text)) && find_step(v.steps, tid) is Some) {
            let g = (st.0 + 1) as u32;
            lemma_find_step_push(v.steps, (think_id(part_index, g), v.next_seq as i32), think_id(part_index, g));
        }
    } else {
        lemma_find_step_push(v.steps, (think_id(part_index, 0), v.next_seq as i32), think_id(part_index, 0));
    }
}

/// A thinking event that continues the recorded text of its reasoning block
/// (either text is a prefix of the other) reuses the block's identity and
/// leaves the sequence numbers as they are.
pub proof fn law_thinking_continuation_reuses_identity(v: RegistryView, part_index: i32, text: Seq<char>)
    requires
        registry_wf(v),
        v.thinking.contains_key(part_index),
        seq_of(v, think_id(part_index, v.thinking[part_index].0)) is Some,
        has_prefix(text, v.thinking[part_index].1) || has_prefix(v.thinking[part_index].1, text),
    ensures
        thinking_spec(v, part_index, text).1 == think_id(part_index, v.thinking[part_index].0),
        thinking_spec(v, part_index, text).2 == seq_of(v, think_id(part_index, v.thinking[part_index].0))->0,
        thinking_spec(v, part_index, text).0.next_seq == v.next_seq,
        thinking_spec(v, part_index, text).0.steps == v.steps,
{
}

/// A thinking event that continues its reasoning block with a longer text
/// makes that text the block's reference: the recorded prefix of the part
/// index becomes the first 80 characters of the new text, under the same
/// generation.
pub proof fn law_thinking_continuation_records_latest_text(v: RegistryView, part_index: i32, text: Seq<char>)
    requires
        registry_wf(v),
        thinking_reuses(v, part_index, text),
        utf8_len(text) > utf8_len(v.thinking[part_index].1),
    ensures
        thinking_spec(v, part_index, text).0.thinking.contains_key(part_index),
        thinking_spec(v, part_index, text).0.thinking[part_index] == (v.thinking[part_index].0, prefix80(text)),
{
}

/// Continuation is judged against the latest text of a block: after an
/// event that continued the block with a longer text, a further event whose
/// text neither extends nor is a prefix of that text's first 80 characters
/// starts a new block, with the next generation and the next step number.
pub proof fn law_recycled_part_index_after_growth(
    v: RegistryView,
    part_index: i32,
    grown: Seq<char>,
    next: Seq<char>,
)
    requires
        registry_wf(v),
        v.next_seq < i32::MAX,
        thinking_reuses(v, part_index, grown),
        utf8_len(grown) > utf8_len(v.thinking[part_index].1),
        !has_prefix(next, prefix80(grown)),
        !has_prefix(prefix80(grown), next),
    ensures
        ({
            let (v1, id1, s1) = thinking_spec(v, part_index, grown);
            let (v2, id2, s2) = thinking_spec(v1, part_index, next);
            &&& id1 == think_id(part_index, v.thinking[part_index].0)
            &&& id2 == think_id(part_index, (v.thinking[part_index].0 + 1) as u32)
            &&& id2 != id1
            &&& s2 == v.next_seq
            &&& v2.next_seq == v.next_seq + 1
        }),
{
    let g = v.thinking[part_index].0;
    if think_id(part_index, g) == think_id(part_index, (g + 1) as u32) {
        lemma_think_id_injective(part_index, g, part_index, (g + 1) as u32);
    }
}

// ---------------------------------------------------------------------------
// Step ids are distinct
// ---------------------------------------------------------------------------

proof fn lemma_digit_char(d: int)
    requires
        0 <= d < 10,
    ensures
        is_digit(digit_char(d)),
        digit_value(digit_char(d)) == d,
{
}

proof fn lemma_dec_digits(n: nat)
    ensures
        dec(n).len() > 0,
        all_digits(dec(n)),
        digits_value(dec(n)) == n,
    decreases n,
{
    lemma_digit_char((n % 10) as int);
    if n < 10 {
        assert(dec(n).drop_last() =~= Seq::<char>::empty());
        assert(n % 10 == n);
        assert(digits_value(dec(n)) == digits_value(Seq::<char>::empty()) * 10 + digit_value(dec(n).last()));
    } else {
        lemma_dec_digits(n / 10);
        let s = dec(n / 10).push(digit_char((n % 10) as int));
        assert(s.drop_last() =~= dec(n / 10));
        assert(digits_value(s) == digits_value(dec(n / 10)) * 10 + digit_value(s.last()));
        assert((n / 10) * 10 + n % 10 == n) by (nonlinear_arith);
        assert forall|i: int| 0 <= i < s.len() implies is_digit(#[trigger] s[i]) by {
            if i < s.len() - 1 {
                assert(s[i] == dec(n / 10)[i]);
            }
        }
    }
}

proof fn lemma_dec_injective(a: nat, b: nat)
    requires
        dec(a) == dec(b),
    ensures
        a == b,
{
    lemma_dec_digits(a);
    lemma_dec_digits(b);
}

proof fn lemma_dec_int_injective(a: int, b: int)
    requires
        dec_int(a) == dec_int(b),
    ensures
        a == b,
{
    lemma_dec_digits((if a < 0 { -a } else { a }) as nat);
    lemma_dec_digits((if b < 0 { -b } else { b }) as nat);
    if a < 0 && b < 0 {
        assert(dec_int(a).drop_first() =~= dec((-a) as nat));
        assert(dec_int(b).drop_first() =~= dec((-b) as nat));
        lemma_dec_injective((-a) as nat, (-b) as nat);
    } else if a < 0 {
        assert(dec_int(a)[0] == '-');
        assert(is_digit(dec(b as nat)[0]));
    } else if b < 0 {
        assert(dec_int(b)[0] == '-');
        assert(is_digit(dec(a as nat)[0]));
    } else {
        lemma_dec_injective(a as nat, b as nat);
    }
}

/// Two reasoning blocks share a step id only when they are the same block.
pub proof fn lemma_think_id_injective(p1: i32, g1: u32, p2: i32, g2: u32)
    requires
        think_id(p1, g1) == think_id(p2, g2),
    ensures
        p1 == p2,
        g1 == g2,
{
    reveal_strlit("think-");
    reveal_strlit("-");
    let a1 = dec_int(p1 as int);
    let a2 = dec_int(p2 as int);
    let b1 = dec(g1 as nat);
    let b2 = dec(g2 as nat);
    lemma_dec_digits(g1 as nat);
    lemma_dec_digits(g2 as nat);
    let s = think_id(p1, g1);
    assert(s == "think-"@ + a1 + "-"@ + b1);
    assert(s == "think-"@ + a2 + "-"@ + b2);
    let l = s.len() as int;
    assert(l == 6 + a1.len() + 1 + b1.len());
    assert(l == 6 + a2.len() + 1 + b2.len());
    if b1.len() < b2.len() {
        let k = l - 1 - b1.len();
        assert(s[k] == ("think-"@ + a1 + "-"@ + b1)[k]);
        assert(s[k] == '-');
        let j = k - (7 + a2.len());
        assert(s[k] == b2[j]);
        assert(is_digit(b2[j]));
        assert(false);
    }
    if b2.len() < b1.len() {
        let k = l - 1 - b2.len();
        assert(s[k] == ("think-"@ + a2 + "-"@ + b2)[k]);
        assert(s[k] == '-');
        let j = k - (7 + a1.len());
        assert(s[k] == b1[j]);
        assert(is_digit(b1[j]));
        assert(false);
    }
    assert(b1 =~= s.subrange(l - b1.len() as int, l));
    assert(b2 =~= s.subrange(l - b2.len() as int, l));
    assert(a1 =~= s.subrange(6, 6 + a1.len() as int));
    assert(a2 =~= s.subrange(6, 6 + a2.len() as int));
    lemma_dec_injective(g1 as nat, g2 as nat);
    lemma_dec_int_injective(p1 as int, p2 as int);
}

/// A tool call's step id is never a reasoning block's.
pub proof fn lemma_tool_id_not_think_id(call_id: Seq<char>, p: i32, g: u32)
    ensures
        tool_id(call_id) != think_id(p, g),
{
    reveal_strlit("tool-");
    reveal_strlit("think-");
    assert(tool_id(call_id)[1] == 'o');
    assert(think_id(p, g)[1] == 'h');
}

// ---------------------------------------------------------------------------
// Runs of calls
// ---------------------------------------------------------------------------

/// A call on a step registry.
pub enum RegistryCall {
    ToolStarted(Seq<char>),
    ToolCompleted(Seq<char>),
    Thinking(i32, Seq<char>),
}

/// The registry after a call, and the step id and number it returns.
pub open spec fn call_effect(v: RegistryView, c: RegistryCall) -> (RegistryView, Seq<char>, int) {
    match c {
        RegistryCall::ToolStarted(x) => assign(v, tool_id(x)),
        RegistryCall::ToolCompleted(x) => assign(v, tool_id(x)),
        RegistryCall::Thinking(p, t) => thinking_spec(v, p, t),
    }
}

/// The registry after a run of calls, and the identities returned, in order.
pub open spec fn run_calls(v: RegistryView, calls: Seq<RegistryCall>) -> (RegistryView, Seq<(Seq<char>, int)>)
    decreases calls.len(),
{
    if calls.len() == 0 {
        (v, Seq::empty())
    } else {
        let prev = run_calls(v, calls.drop_last());
        let e = call_effect(prev.0, calls.last());
        (e.0, prev.1.push((e.1, e.2)))
    }
}

/// The registry `StepRegistry::new` makes.
pub open spec fn empty_registry() -> RegistryView {
    RegistryView { next_seq: 0, steps: Seq::empty(), thinking: Map::empty() }
}

/// The identity returned at `j` has a step id no earlier call returned.
pub open spec fn fresh(ids: Seq<(Seq<char>, int)>, j: int) -> bool {
    forall|i: int| 0 <= i < j ==> ids[i].0 != ids[j].0
}

/// How many of the first `n` identities returned carry a step id returned
/// for the first time.
pub open spec fn fresh_count(ids: Seq<(Seq<char>, int)>, n: int) -> int
    decreases n,
{
    if n <= 0 {
        0
    } else {
        fresh_count(ids, n - 1) + if fresh(ids, n - 1) {
            1int
        } else {
            0int
        }
    }
}

/// Every recorded reasoning block's generation is at most the latest
/// generation of its part index.
spec fn think_ok(v: RegistryView) -> bool {
    forall|p: i32, g: u32|
        #[trigger] seq_of(v, think_id(p, g)) is Some ==> (v.thinking.contains_key(p) && g <= v.thinking[p].0)
}

spec fn run_inv(v: RegistryView, ids: Seq<(Seq<char>, int)>) -> bool {
    &&& registry_wf(v)
    &&& think_ok(v)
    &&& v.next_seq <= ids.len()
    &&& forall|k: int|
        0 <= k < ids.len() ==> 0 <= (#[trigger] ids[k]).1 < v.next_seq && seq_of(v, ids[k].0) == Some(
            ids[k].1 as i32,
        )
    &&& forall|id: Seq<char>| #[trigger] seq_of(v, id) is Some ==> exists|k: int| 0 <= k < ids.len() && ids[k].0 == id
    &&& forall|j: int| 0 <= j < ids.len() && #[trigger] fresh(ids, j) ==> forall|i: int| 0 <= i < j ==> ids[i].1 < ids[j].1
    &&& v.next_seq == fresh_count(ids, ids.len() as int)
    &&& forall|j: int| 0 <= j < ids.len() && #[trigger] fresh(ids, j) ==> ids[j].1 == fresh_count(ids, j)
}

proof fn lemma_fresh_count_push(ids: Seq<(Seq<char>, int)>, x: (Seq<char>, int), n: int)
    requires
        0 <= n <= ids.len(),
    ensures
        fresh_count(ids.push(x), n) == fresh_count(ids, n),
    decreases n,
{
    if n > 0 {
        lemma_fresh_count_push(ids, x, n - 1);
        lemma_fresh_prefix(ids, x, n - 1);
    }
}

proof fn lemma_fresh_prefix(ids: Seq<(Seq<char>, int)>, x: (Seq<char>, int), j: int)
    requires
        0 <= j < ids.len(),
    ensures
        fresh(ids.push(x), j) == fresh(ids, j),
{
    assert forall|i: int| 0 <= i < j implies ids.push(x)[i] == ids[i] by {}
    assert(ids.push(x)[j] == ids[j]);
}

proof fn lemma_inv_after_reuse(v: RegistryView, ids: Seq<(Seq<char>, int)>, v2: RegistryView, id: Seq<char>)
    requires
        run_inv(v, ids),
        v2.steps == v.steps,
        v2.next_seq == v.next_seq,
        registry_wf(v2),
        think_ok(v2),
        seq_of(v, id) is Some,
    ensures
        run_inv(v2, ids.push((id, seq_of(v, id)->0 as int))),
{
    let x = (id, seq_of(v, id)->0 as int);
    let ids2 = ids.push(x);
    lemma_find_step_bounds(v.steps, id);
    assert forall|k: int| 0 <= k < ids2.len() implies 0 <= (#[trigger] ids2[k]).1 < v2.next_seq && seq_of(
        v2,
        ids2[k].0,
    ) == Some(ids2[k].1 as i32) by {
        if k < ids.len() {
            assert(ids2[k] == ids[k]);
        }
    }
    assert forall|y: Seq<char>| #[trigger] seq_of(v2, y) is Some implies exists|k: int|
        0 <= k < ids2.len() && ids2[k].0 == y by {
        assert(seq_of(v, y) == seq_of(v2, y));
        assert(seq_of(v, y) is Some);
        let k = choose|k: int| 0 <= k < ids.len() && ids[k].0 == y;
        assert(ids2[k] == ids[k]);
    }
    assert forall|j: int| 0 <= j < ids2.len() && #[trigger] fresh(ids2, j) implies forall|i: int|
        0 <= i < j ==> ids2[i].1 < ids2[j].1 by {
        if j < ids.len() {
            lemma_fresh_prefix(ids, x, j);
            assert forall|i: int| 0 <= i < j implies ids2[i].1 < ids2[j].1 by {
                assert(ids2[i] == ids[i]);
                assert(ids2[j] == ids[j]);
            }
        } else {
            assert(seq_of(v, id) is Some);
            let k = choose|k: int| 0 <= k < ids.len() && ids[k].0 == id;
            assert(ids2[k] == ids[k]);
            assert(ids2[k].0 == ids2[j].0);
        }
    }
    assert(!fresh(ids2, ids.len() as int)) by {
        let k = choose|k: int| 0 <= k < ids.len() && ids[k].0 == id;
        assert(ids2[k] == ids[k]);
        assert(ids2[ids.len() as int] == x);
    }
    lemma_fresh_count_push(ids, x, ids.len() as int);
    assert(fresh_count(ids2, ids2.len() as int) == fresh_count(ids2, ids.len() as int));
    assert forall|j: int| 0 <= j < ids2.len() && #[trigger] fresh(ids2, j) implies ids2[j].1 == fresh_count(
        ids2,
        j,
    ) by {
        lemma_fresh_prefix(ids, x, j);
        lemma_fresh_count_push(ids, x, j);
        assert(ids2[j] == ids[j]);
    }
}

proof fn lemma_inv_after_new(v: RegistryView, ids: Seq<(Seq<char>, int)>, v2: RegistryView, id: Seq<char>)
    requires
        run_inv(v, ids),
        seq_of(v, id) is None,
        v2.steps == v.steps.push((id, v.next_seq as i32)),
        v2.next_seq == v.next_seq + 1,
        registry_wf(v2),
        think_ok(v2),
    ensures
        run_inv(v2, ids.push((id, v.next_seq))),
{
    let x = (id, v.next_seq);
    let ids2 = ids.push(x);
    assert forall|y: Seq<char>| seq_of(v2, y) == if y == id {
        Some(v.next_seq as i32)
    } else {
        seq_of(v, y)
    } by {
        lemma_find_step_push(v.steps, (id, v.next_seq as i32), y);
        lemma_find_step_bounds(v.steps, y);
        assert(v2.steps[v.steps.len() as int] == (id, v.next_seq as i32));
        if let Some(i) = find_step(v.steps, y) {
            assert(v2.steps[i] == v.steps[i]);
        }
    }
    assert forall|k: int| 0 <= k < ids2.len() implies 0 <= (#[trigger] ids2[k]).1 < v2.next_seq && seq_of(
        v2,
        ids2[k].0,
    ) == Some(ids2[k].1 as i32) by {
        if k < ids.len() {
            assert(ids2[k] == ids[k]);
            assert(seq_of(v, ids[k].0) is Some);
        }
    }
    assert forall|y: Seq<char>| #[trigger] seq_of(v2, y) is Some implies exists|k: int|
        0 <= k < ids2.len() && ids2[k].0 == y by {
        if y == id {
            assert(ids2[ids.len() as int] == x);
        } else {
            assert(seq_of(v, y) is Some);
            let k = choose|k: int| 0 <= k < ids.len() && ids[k].0 == y;
            assert(ids2[k] == ids[k]);
        }
    }
    assert forall|j: int| 0 <= j < ids2.len() && #[trigger] fresh(ids2, j) implies forall|i: int|
        0 <= i < j ==> ids2[i].1 < ids2[j].1 by {
        if j < ids.len() {
            lemma_fresh_prefix(ids, x, j);
            assert forall|i: int| 0 <= i < j implies ids2[i].1 < ids2[j].1 by {
                assert(ids2[i] == ids[i]);
                assert(ids2[j] == ids[j]);
            }
        } else {
            assert forall|i: int| 0 <= i < j implies ids2[i].1 < ids2[j].1 by {
                assert(ids2[i] == ids[i]);
            }
        }
    }
    assert(fresh(ids2, ids.len() as int)) by {
        assert forall|i: int| 0 <= i < ids.len() implies (#[trigger] ids2[i]).0 != ids2[ids.len() as int].0 by {
            assert(ids2[i] == ids[i]);
            assert(seq_of(v, ids[i].0) is Some);
        }
    }
    lemma_fresh_count_push(ids, x, ids.len() as int);
    assert(fresh_count(ids2, ids2.len() as int) == fresh_count(ids2, ids.len() as int) + 1);
    assert forall|j: int| 0 <= j < ids2.len() && #[trigger] fresh(ids2, j) implies ids2[j].1 == fresh_count(
        ids2,
        j,
    ) by {
        if j < ids.len() {
            lemma_fresh_prefix(ids, x, j);
            lemma_fresh_count_push(ids, x, j);
            assert(ids2[j] == ids[j]);
        }
    }
}

proof fn lemma_tool_call(v: RegistryView, ids: Seq<(Seq<char>, int)>, x: Seq<char>)
    requires
        run_inv(v, ids),
        ids.len() < i32::MAX,
    ensures
        ({
            let e = assign(v, tool_id(x));
            run_inv(e.0, ids.push((e.1, e.2)))
        }),
{
    let id = tool_id(x);
    lemma_find_step_bounds(v.steps, id);
    match find_step(v.steps, id) {
        Some(i) => {
            lemma_inv_after_reuse(v, ids, v, id);
        },
        None => {
            let v2 = assign(v, id).0;
            let n = v.next_seq;
            assert forall|i: int| 0 <= i < v2.steps.len() implies 0 <= (#[trigger] v2.steps[i]).1 < v2.next_seq by {
                if i < v.steps.len() {
                    assert(v2.steps[i] == v.steps[i]);
                }
            }
            assert forall|i: int, j: int| 0 <= i < j < v2.steps.len() implies (#[trigger] v2.steps[i]).1
                < (#[trigger] v2.steps[j]).1 by {
                assert(v2.steps[i] == v.steps[i]);
                if j < v.steps.len() {
                    assert(v2.steps[j] == v.steps[j]);
                }
            }
            assert forall|pp: i32, g: u32| #[trigger] seq_of(v2, think_id(pp, g)) is Some implies (
            v2.thinking.contains_key(pp) && g <= v2.thinking[pp].0) by {
                lemma_tool_id_not_think_id(x, pp, g);
                lemma_find_step_push(v.steps, (id, n as i32), think_id(pp, g));
                lemma_find_step_bounds(v.steps, think_id(pp, g));
                if let Some(k) = find_step(v.steps, think_id(pp, g)) {
                    assert(v2.steps[k] == v.steps[k]);
                }
                assert(seq_of(v, think_id(pp, g)) is Some);
            }
            lemma_inv_after_new(v, ids, v2, id);
        },
    }
}

proof fn lemma_new_generation(v: RegistryView, ids: Seq<(Seq<char>, int)>, p: i32, gen: u32, t: Seq<char>)
    requires
        run_inv(v, ids),
        ids.len() < i32::MAX,
        gen <= v.next_seq,
        v.thinking.contains_key(p) ==> v.thinking[p].0 < gen,
    ensures
        ({
            let e = new_generation(v, p, gen, t);
            run_inv(e.0, ids.push((e.1, e.2)))
        }),
{
    let id = think_id(p, gen);
    let n = v.next_seq;
    let v2 = new_generation(v, p, gen, t).0;
    if seq_of(v, think_id(p, gen)) is Some {
        assert(false);
    }
    assert forall|i: int| 0 <= i < v2.steps.len() implies 0 <= (#[trigger] v2.steps[i]).1 < v2.next_seq by {
        if i < v.steps.len() {
            assert(v2.steps[i] == v.steps[i]);
        }
    }
    assert forall|i: int, j: int| 0 <= i < j < v2.steps.len() implies (#[trigger] v2.steps[i]).1
        < (#[trigger] v2.steps[j]).1 by {
        assert(v2.steps[i] == v.steps[i]);
        if j < v.steps.len() {
            assert(v2.steps[j] == v.steps[j]);
        }
    }
    assert forall|pp: i32| #[trigger] v2.thinking.contains_key(pp) implies (v2.thinking[pp].0 as int)
        < v2.next_seq by {
        if pp != p {
            assert(v.thinking.contains_key(pp));
        }
    }
    assert forall|pp: i32, g: u32| #[trigger] seq_of(v2, think_id(pp, g)) is Some implies (
    v2.thinking.contains_key(pp) && g <= v2.thinking[pp].0) by {
        lemma_find_step_push(v.steps, (id, n as i32), think_id(pp, g));
        lemma_find_step_bounds(v.steps, think_id(pp, g));
        if think_id(pp, g) == id {
            lemma_think_id_injective(pp, g, p, gen);
        } else {
            if let Some(k) = find_step(v.steps, think_id(pp, g)) {
                assert(v2.steps[k] == v.steps[k]);
            }
            assert(seq_of(v, think_id(pp, g)) is Some);
        }
    }
    lemma_inv_after_new(v, ids, v2, id);
}

proof fn lemma_thinking_call(v: RegistryView, ids: Seq<(Seq<char>, int)>, p: i32, t: Seq<char>)
    requires
        run_inv(v, ids),
        ids.len() < i32::MAX,
    ensures
        ({
            let e = thinking_spec(v, p, t);
            run_inv(e.0, ids.push((e.1, e.2)))
        }),
{
    if v.thinking.contains_key(p) {
        let st = v.thinking[p];
        let id = think_id(p, st.0);
        if (has_prefix(t, st.1) || has_prefix(st.1, t)) && find_step(v.steps, id) is Some {
            lemma_find_step_bounds(v.steps, id);
            let v2 = thinking_spec(v, p, t).0;
            if utf8_len(t) > utf8_len(st.1) {
                assert forall|pp: i32| #[trigger] v2.thinking.contains_key(pp) implies (v2.thinking[pp].0 as int)
                    < v2.next_seq by {
                    assert(v.thinking.contains_key(pp));
                }
                assert forall|pp: i32, g: u32| #[trigger] seq_of(v2, think_id(pp, g)) is Some implies (
                v2.thinking.contains_key(pp) && g <= v2.thinking[pp].0) by {
                    assert(seq_of(v, think_id(pp, g)) is Some);
                }
            }
            lemma_inv_after_reuse(v, ids, v2, id);
        } else {
            lemma_new_generation(v, ids, p, (st.0 + 1) as u32, t);
        }
    } else {
        lemma_new_generation(v, ids, p, 0, t);
    }
}

proof fn lemma_run_inv(calls: Seq<RegistryCall>)
    requires
        calls.len() < i32::MAX,
    ensures
        run_inv(run_calls(empty_registry(), calls).0, run_calls(empty_registry(), calls).1),
        run_calls(empty_registry(), calls).1.len() == calls.len(),
    decreases calls.len(),
{
    if calls.len() == 0 {
        let v = empty_registry();
        assert forall|pp: i32, g: u32| #[trigger] seq_of(v, think_id(pp, g)) is Some implies (
        v.thinking.contains_key(pp) && g <= v.thinking[pp].0) by {}
    } else {
        lemma_run_inv(calls.drop_last());
        let prev = run_calls(empty_registry(), calls.drop_last());
        match calls.last() {
            RegistryCall::ToolStarted(x) => lemma_tool_call(prev.0, prev.1, x),
            RegistryCall::ToolCompleted(x) => lemma_tool_call(prev.0, prev.1, x),
            RegistryCall::Thinking(p, t) => lemma_thinking_call(prev.0, prev.1, p, t),
        }
    }
}

/// Over any run of calls on a new registry (fewer than `i32::MAX` of them),
/// the identities returned agree with one another: calls that return the
/// same step id return the same step number, calls that return different
/// step ids return different numbers, and the k-th step id returned for the
/// first time (counting from 0) gets number k, so it lies above every number
/// returned before it.
pub proof fn law_registry_run_identities(calls: Seq<RegistryCall>)
    requires
        calls.len() < i32::MAX,
    ensures
        ({
            let ids = run_calls(empty_registry(), calls).1;
            &&& ids.len() == calls.len()
            &&& forall|i: int, j: int|
                0 <= i < ids.len() && 0 <= j < ids.len() && (#[trigger] ids[i]).0 == (#[trigger] ids[j]).0
                    ==> ids[i].1 == ids[j].1
            &&& forall|i: int, j: int|
                0 <= i < ids.len() && 0 <= j < ids.len() && (#[trigger] ids[i]).0 != (#[trigger] ids[j]).0
                    ==> ids[i].1 != ids[j].1
            &&& forall|i: int, j: int|
                0 <= i < j < ids.len() && fresh(ids, j) ==> (#[trigger] ids[i]).1 < (#[trigger] ids[j]).1
            &&& forall|j: int| 0 <= j < ids.len() && #[trigger] fresh(ids, j) ==> ids[j].1 == fresh_count(ids, j)
        }),
{
    lemma_run_inv(calls);
    let v = run_calls(empty_registry(), calls).0;
    let ids = run_calls(empty_registry(), calls).1;
    assert forall|i: int, j: int|
        0 <= i < ids.len() && 0 <= j < ids.len() && (#[trigger] ids[i]).0 != (#[trigger] ids[j]).0 implies ids[i].1
        != ids[j].1 by {
        law_distinct_steps_distinct_seqs(v, ids[i].0, ids[j].0);
    }
    assert forall|i: int, j: int| 0 <= i < j < ids.len() && fresh(ids, j) implies (#[trigger] ids[i]).1
        < (#[trigger] ids[j]).1 by {
        assert(fresh(ids, j));
    }
}

} // verus!
