//! An agentic query run: the ordered steps that prepare an agent pod, run
//! the query and record its outcome; the decisions taken around the agent
//! session; and how each streamed agent event is recorded.
use vstd::prelude::*;

use crate::errors::{new_terminal_error, prefixed_message, terminal_err_message, terminal_error_new};
use crate::model::{
    is_json, json_i64_field, json_parses, json_string_field, parse_uuid, read_json_i64_field,
    read_json_string_field, uuid_parse,
};
use restate_sdk::errors::TerminalError;
use crate::reasoning::trace::ConversationEvent;
use crate::step_registry::{assign, find_step, thinking_reuses, thinking_spec, tool_id, StepIdentity, StepRegistry};
use crate::text::{
    contains_chars, contains_seq, eq_ignore_ascii_case, eq_ignore_ascii_case_spec, find_char,
    first_index, lemma_first_index, owned, strip_prefix, strip_prefix_spec, str_eq, string_from_range, to_chars, trim, trim_ws,
};

verus! {

// ---------------------------------------------------------------------------
// Request identifiers
// ---------------------------------------------------------------------------

/// The identifiers of a query request, or the message of the terminal error
/// raised for the first one that is not a UUID.
pub open spec fn query_ids_spec(conversation_id: Seq<char>, user_id: Seq<char>) -> Result<
    (u128, u128),
    Seq<char>,
> {
    match uuid_parse(conversation_id) {
        Err(e) => Err(prefixed_message("invalid conversation_id"@, e)),
        Ok(c) => match uuid_parse(user_id) {
            Err(e) => Err(prefixed_message("invalid user_id"@, e)),
            Ok(u) => Ok((c, u)),
        },
    }
}

/// Parses the conversation and user identifiers of a query request.
pub fn parse_query_ids(conversation_id: &str, user_id: &str) -> (r: Result<(u128, u128), String>)
    ensures
        match r {
            Ok(ids) => query_ids_spec(conversation_id@, user_id@) == Ok::<(u128, u128), Seq<char>>(ids),
            Err(m) => query_ids_spec(conversation_id@, user_id@) == Err::<(u128, u128), Seq<char>>(m@),
        },
{
    let c = match parse_uuid(conversation_id) {
        Ok(c) => c,
        Err(e) => {
            return Err(terminal_err_message("invalid conversation_id", e.as_str()));
        },
    };
    match parse_uuid(user_id) {
        Ok(u) => Ok((c, u)),
        Err(e) => {
            Err(terminal_err_message("invalid user_id", e.as_str()))
        },
    }
}

// ---------------------------------------------------------------------------
// The steps of a run
// ---------------------------------------------------------------------------

/// The steps of a query run, in the order they are taken.
#[derive(Debug, Clone, Copy, PartialEq, Eq, Structural)]
pub enum QueryStep {
    /// Set the query status to `running`.
    MarkRunning,
    /// Check that agent containers are configured.
    CheckContainers,
    /// Create the service session the agent pod authenticates with.
    CreateAgentSession,
    /// Record the `container_status` event `creating`.
    AnnounceCreating,
    /// Create the agent pod.
    EnsurePod,
    /// Wait for the pod to run and learn its address.
    AwaitPod,
    /// Record the `container_status` event `ready`.
    AnnounceReady,
    /// Run the query against the agent.
    RunCore,
    /// Store the assistant's answer as a message.
    StoreMessage,
    /// Delete the ephemeral events (failures are ignored).
    CleanupEvents,
    /// Add the run's tool calls to the conversation totals.
    UpdateTotals,
    /// Record the `final_answer` event.
    WriteFinalAnswer,
    /// Set the query status to `completed`.
    MarkCompleted,
    /// Record the `error` event of a failed query.
    WriteErrorEvent,
    /// Set the query status to `failed`.
    MarkFailed,
}

/// What follows a step.
#[derive(Debug, Clone, PartialEq, Eq)]
pub enum QueryProgress {
    Next(QueryStep),
    /// The run ends successfully.
    Complete,
    /// The run ends with a terminal error carrying this message.
    Abort(String),
}

/// Context of the terminal error raised when a step fails.
pub open spec fn failure_context(step: QueryStep) -> Seq<char> {
    match step {
        QueryStep::MarkRunning => "failed to update status"@,
        QueryStep::CheckContainers => "agent containers not configured"@,
        QueryStep::CreateAgentSession => "failed to create agent session"@,
        QueryStep::AnnounceCreating => "failed to append event"@,
        QueryStep::EnsurePod => "failed to create agent pod"@,
        QueryStep::AwaitPod => "pod failed to start"@,
        QueryStep::AnnounceReady => "failed to append event"@,
        QueryStep::RunCore => seq![],
        QueryStep::StoreMessage => "failed to store message"@,
        QueryStep::CleanupEvents => seq![],
        QueryStep::UpdateTotals => "failed to update totals"@,
        QueryStep::WriteFinalAnswer => "failed to write final event"@,
        QueryStep::MarkCompleted => "failed to update status"@,
        QueryStep::WriteErrorEvent => "failed to write error event"@,
        QueryStep::MarkFailed => "failed to update status"@,
    }
}

/// The step after a step that succeeded.
pub open spec fn step_after(step: QueryStep) -> Option<QueryStep> {
    match step {
        QueryStep::MarkRunning => Some(QueryStep::CheckContainers),
        QueryStep::CheckContainers => Some(QueryStep::CreateAgentSession),
        QueryStep::CreateAgentSession => Some(QueryStep::AnnounceCreating),
        QueryStep::AnnounceCreating => Some(QueryStep::EnsurePod),
        QueryStep::EnsurePod => Some(QueryStep::AwaitPod),
        QueryStep::AwaitPod => Some(QueryStep::AnnounceReady),
        QueryStep::AnnounceReady => Some(QueryStep::RunCore),
        QueryStep::RunCore => Some(QueryStep::StoreMessage),
        QueryStep::StoreMessage => Some(QueryStep::CleanupEvents),
        QueryStep::CleanupEvents => Some(QueryStep::UpdateTotals),
        QueryStep::UpdateTotals => Some(QueryStep::WriteFinalAnswer),
        QueryStep::WriteFinalAnswer => Some(QueryStep::MarkCompleted),
        QueryStep::MarkCompleted => None,
        QueryStep::WriteErrorEvent => Some(QueryStep::MarkFailed),
        QueryStep::MarkFailed => None,
    }
}

/// What follows `step` given how it went: success moves on; a failed query
/// (`RunCore`) is recorded rather than raised; the cleanup never fails the
/// run; the configuration check fails with its own message; any other
/// failure ends the run with a terminal error `"{context}: {error}"`.
pub open spec fn progress_spec(step: QueryStep, outcome: Result<(), Seq<char>>) -> (Option<QueryStep>, Option<Seq<char>>) {
    match outcome {
        Ok(()) => (step_after(step), None),
        Err(e) => match step {
            QueryStep::RunCore => (Some(QueryStep::WriteErrorEvent), None),
            QueryStep::CleanupEvents => (Some(QueryStep::UpdateTotals), None),
            QueryStep::CheckContainers => (None, Some(failure_context(step))),
            _ => (None, Some(prefixed_message(failure_context(step), e))),
        },
    }
}

pub open spec fn progress_matches(r: QueryProgress, p: (Option<QueryStep>, Option<Seq<char>>)) -> bool {
    match r {
        QueryProgress::Next(s) => p.0 == Some(s) && p.1 is None,
        QueryProgress::Complete => p.0 is None && p.1 is None,
        QueryProgress::Abort(m) => p.0 is None && p.1 == Some(m@),
    }
}

pub open spec fn outcome_view(o: &Result<(), String>) -> Result<(), Seq<char>> {
    match o {
        Ok(()) => Ok(()),
        Err(e) => Err(e@),
    }
}

/// The first step of a run.
pub fn first_query_step() -> (r: QueryStep)
    ensures
        r == QueryStep::MarkRunning,
{
    QueryStep::MarkRunning
}

fn failure_context_str(step: QueryStep) -> (r: &'static str)
    ensures
        r@ == failure_context(step),
{
    match step {
        QueryStep::MarkRunning => "failed to update status",
        QueryStep::CheckContainers => "agent containers not configured",
        QueryStep::CreateAgentSession => "failed to create agent session",
        QueryStep::AnnounceCreating => "failed to append event",
        QueryStep::EnsurePod => "failed to create agent pod",
        QueryStep::AwaitPod => "pod failed to start",
        QueryStep::AnnounceReady => "failed to append event",
        QueryStep::RunCore => {
            proof {
                reveal_strlit("");
            }
            ""
        },
        QueryStep::StoreMessage => "failed to store message",
        QueryStep::CleanupEvents => {
            proof {
                reveal_strlit("");
            }
            ""
        },
        QueryStep::UpdateTotals => "failed to update totals",
        QueryStep::WriteFinalAnswer => "failed to write final event",
        QueryStep::MarkCompleted => "failed to update status",
        QueryStep::WriteErrorEvent => "failed to write error event",
        QueryStep::MarkFailed => "failed to update status",
    }
}

fn step_after_exec(step: QueryStep) -> (r: Option<QueryStep>)
    ensures
        r == step_after(step),
{
    match step {
        QueryStep::MarkRunning => Some(QueryStep::CheckContainers),
        QueryStep::CheckContainers => Some(QueryStep::CreateAgentSession),
        QueryStep::CreateAgentSession => Some(QueryStep::AnnounceCreating),
        QueryStep::AnnounceCreating => Some(QueryStep::EnsurePod),
        QueryStep::EnsurePod => Some(QueryStep::AwaitPod),
        QueryStep::AwaitPod => Some(QueryStep::AnnounceReady),
        QueryStep::AnnounceReady => Some(QueryStep::RunCore),
        QueryStep::RunCore => Some(QueryStep::StoreMessage),
        QueryStep::StoreMessage => Some(QueryStep::CleanupEvents),
        QueryStep::CleanupEvents => Some(QueryStep::UpdateTotals),
        QueryStep::UpdateTotals => Some(QueryStep::WriteFinalAnswer),
        QueryStep::WriteFinalAnswer => Some(QueryStep::MarkCompleted),
        QueryStep::MarkCompleted => None,
        QueryStep::WriteErrorEvent => Some(QueryStep::MarkFailed),
        QueryStep::MarkFailed => None,
    }
}

/// Decides what follows a step of a query run from how it went.
pub fn advance_query(step: QueryStep, outcome: &Result<(), String>) -> (r: QueryProgress)
    ensures
        progress_matches(r, progress_spec(step, outcome_view(outcome))),
{
    match outcome {
        Ok(()) => match step_after_exec(step) {
            Some(s) => QueryProgress::Next(s),
            None => QueryProgress::Complete,
        },
        Err(e) => match step {
            QueryStep::RunCore => QueryProgress::Next(QueryStep::WriteErrorEvent),
            QueryStep::CleanupEvents => QueryProgress::Next(QueryStep::UpdateTotals),
            QueryStep::CheckContainers => QueryProgress::Abort(owned(failure_context_str(step))),
            _ => {
                QueryProgress::Abort(terminal_err_message(failure_context_str(step), e.as_str()))
            },
        },
    }
}

/// Position of a step in the run; every transition moves to a later one.
pub open spec fn step_rank(step: QueryStep) -> int {
    match step {
        QueryStep::MarkRunning => 0,
        QueryStep::CheckContainers => 1,
        QueryStep::CreateAgentSession => 2,
        QueryStep::AnnounceCreating => 3,
        QueryStep::EnsurePod => 4,
        QueryStep::AwaitPod => 5,
        QueryStep::AnnounceReady => 6,
        QueryStep::RunCore => 7,
        QueryStep::StoreMessage => 8,
        QueryStep::CleanupEvents => 9,
        QueryStep::UpdateTotals => 10,
        QueryStep::WriteFinalAnswer => 11,
        QueryStep::MarkCompleted => 12,
        QueryStep::WriteErrorEvent => 8,
        QueryStep::MarkFailed => 9,
    }
}

/// A run never returns to a step it has passed: whatever the outcome, the
/// next step comes later, so a run takes at most thirteen steps.
pub proof fn law_query_run_moves_forward(step: QueryStep, outcome: Result<(), Seq<char>>)
    ensures
        progress_spec(step, outcome).0 matches Some(s) ==> step_rank(s) > step_rank(step),
{
}

/// A run ends well only after its final status was written: `completed`
/// after the answer, or `failed` after the error event of a failed query.
pub proof fn law_query_run_completes_after_status(step: QueryStep, outcome: Result<(), Seq<char>>)
    ensures
        (progress_spec(step, outcome).0 is None && progress_spec(step, outcome).1 is None) <==> (
        outcome is Ok && (step == QueryStep::MarkCompleted || step == QueryStep::MarkFailed)),
{
}

/// A failed query does not fail the run: its error is recorded and the
/// status set to `failed`.
pub proof fn law_failed_query_is_recorded(e: Seq<char>)
    ensures
        progress_spec(QueryStep::RunCore, Err(e)) == (Some(QueryStep::WriteErrorEvent), None::<Seq<char>>),
        progress_spec(QueryStep::WriteErrorEvent, Ok(())) == (Some(QueryStep::MarkFailed), None::<Seq<char>>),
{
}

// ---------------------------------------------------------------------------
// The agent session
// ---------------------------------------------------------------------------

/// A message of the agent session: its role and the texts of its text parts.
#[derive(Debug, Clone)]
pub struct SessionMessage {
    pub role: String,
    pub texts: Vec<String>,
}

/// State of the agent session before the question is sent.
#[derive(Debug, Clone, Copy, PartialEq, Eq, Structural)]
pub enum SessionState {
    /// The question was sent already (a replayed invocation): do not resend.
    QuestionAlreadySent,
    /// The session is healthy and ready for the question.
    Ready,
    /// The session no longer exists: a new one must be created.
    Dead,
}

/// A user message whose text (trimmed) is the question (trimmed).
pub open spec fn asks(m: SessionMessage, question: Seq<char>) -> bool {
    m.role@ == "user"@ && exists|j: int| 0 <= j < m.texts@.len() && trim_ws(#[trigger] m.texts@[j]@) == trim_ws(question)
}

/// State of the session given the listing of its messages (or the text of
/// the error listing them): a `404` means the session is gone; another
/// error is taken as a healthy session.
pub open spec fn session_state_spec(listing: Result<Seq<SessionMessage>, Seq<char>>, question: Seq<char>) -> SessionState {
    match listing {
        Err(e) => if contains_seq(e, "404"@) {
            SessionState::Dead
        } else {
            SessionState::Ready
        },
        Ok(ms) => if exists|i: int| 0 <= i < ms.len() && asks(#[trigger] ms[i], question) {
            SessionState::QuestionAlreadySent
        } else {
            SessionState::Ready
        },
    }
}

pub open spec fn listing_view(l: Result<Vec<SessionMessage>, String>) -> Result<Seq<SessionMessage>, Seq<char>> {
    match l {
        Ok(v) => Ok(v@),
        Err(e) => Err(e@),
    }
}

fn message_asks(m: &SessionMessage, question: &String) -> (r: bool)
    ensures
        r == asks(*m, question@),
{
    proof {
        reveal_strlit("user");
    }
    if !str_eq(m.role.as_str(), "user") {
        return false;
    }
    assert(m.role@ == "user"@);
    let q = trim(question.as_str());
    let mut j: usize = 0;
    while j < m.texts.len()
        invariant
            j <= m.texts@.len(),
            q@ == trim_ws(question@),
            m.role@ == "user"@,
            forall|k: int| 0 <= k < j ==> trim_ws(#[trigger] m.texts@[k]@) != trim_ws(question@),
        decreases m.texts.len() - j,
    {
        let t = trim(m.texts[j].as_str());
        if str_eq(t.as_str(), q.as_str()) {
            proof {
                assert(trim_ws(m.texts@[j as int]@) == trim_ws(question@));
                assert(asks(*m, question@));
            }
            return true;
        }
        j = j + 1;
    }
    false
}

/// Classifies the agent session before sending the question.
pub fn classify_session(listing: &Result<Vec<SessionMessage>, String>, question: &String) -> (r: SessionState)
    ensures
        r == session_state_spec(listing_view(*listing), question@),
{
    match listing {
        Err(e) => {
            proof {
                reveal_strlit("404");
            }
            if contains_chars(&to_chars(e.as_str()), &to_chars("404")) {
                SessionState::Dead
            } else {
                SessionState::Ready
            }
        },
        Ok(ms) => {
            let mut i: usize = 0;
            while i < ms.len()
                invariant
                    i <= ms@.len(),
                    listing_view(*listing) == Ok::<Seq<SessionMessage>, Seq<char>>(ms@),
                    forall|k: int| 0 <= k < i ==> !asks(#[trigger] ms@[k], question@),
                decreases ms.len() - i,
            {
                if message_asks(&ms[i], question) {
                    proof {
                        let l = listing_view(*listing);
                        assert(l->Ok_0[i as int] == ms@[i as int]);
                        assert(asks(l->Ok_0[i as int], question@));
                    }
                    return SessionState::QuestionAlreadySent;
                }
                i = i + 1;
            }
            SessionState::Ready
        },
    }
}

/// Whether the question is the `/compact` command (trimmed, any ASCII case).
pub open spec fn is_compact_spec(question: Seq<char>) -> bool {
    eq_ignore_ascii_case_spec(trim_ws(question), "/compact"@)
}

pub fn is_compact_command(question: &str) -> (r: bool)
    ensures
        r == is_compact_spec(question@),
{
    let t = trim(question);
    eq_ignore_ascii_case(t.as_str(), "/compact")
}

/// Provider and model used to compact a session, from the conversation's
/// model name `provider/model` (default `google/gemini-2.5-flash`; a name
/// without `/` is a Google model).
pub open spec fn compaction_model_spec(model_name: Seq<char>) -> (Seq<char>, Seq<char>) {
    let name = if model_name.len() == 0 {
        "google/gemini-2.5-flash"@
    } else {
        model_name
    };
    match first_index(name, '/') {
        Some(i) => (name.subrange(0, i), name.subrange(i + 1, name.len() as int)),
        None => ("google"@, name),
    }
}

pub fn compaction_model(model_name: &str) -> (r: (String, String))
    ensures
        (r.0@, r.1@) == compaction_model_spec(model_name@),
{
    let name = if model_name.is_empty() {
        owned("google/gemini-2.5-flash")
    } else {
        owned(model_name)
    };
    let v = to_chars(name.as_str());
    proof {
        lemma_first_index(v@, '/');
    }
    match find_char(&v, '/') {
        Some(i) => {
            proof {
                assert(i < v@.len());
            }
            let n = v.len();
            (string_from_range(&v, 0, i), string_from_range(&v, i + 1, n))
        },
        None => (owned("google"), name),
    }
}

/// The compaction provider is the text of the model name before its first
/// `/`, which holds no `/`, and the model is everything after that `/`: the
/// two joined by `/` give the name back. A name without `/` is a Google
/// model of that name, and an empty name is `google/gemini-2.5-flash`.
pub proof fn law_compaction_model_splits_at_first_slash(model_name: Seq<char>)
    ensures
        ({
            let (provider, model) = compaction_model_spec(model_name);
            &&& model_name.len() > 0 && model_name.contains('/') ==> {
                &&& provider + "/"@ + model == model_name
                &&& !provider.contains('/')
            }
            &&& model_name.len() > 0 && !model_name.contains('/') ==> provider == "google"@ && model
                == model_name
            &&& model_name.len() == 0 ==> provider == "google"@ && model == "gemini-2.5-flash"@
        }),
{
    reveal_strlit("/");
    reveal_strlit("google/gemini-2.5-flash");
    reveal_strlit("gemini-2.5-flash");
    reveal_strlit("google");
    let name = if model_name.len() == 0 {
        "google/gemini-2.5-flash"@
    } else {
        model_name
    };
    lemma_first_index(name, '/');
    let (provider, model) = compaction_model_spec(model_name);
    match first_index(name, '/') {
        Some(i) => {
            assert(provider + "/"@ + model =~= name);
            assert(!provider.contains('/')) by {
                if provider.contains('/') {
                    let j = choose|j: int| 0 <= j < provider.len() && provider[j] == '/';
                    assert(name[j] == '/');
                }
            }
            if model_name.len() == 0 {
                assert(name[6] == '/');
                assert(i == 6) by {
                    if i < 6 {
                        assert(name[i] != '/');
                    }
                }
                assert(provider =~= "google"@);
                assert(model =~= "gemini-2.5-flash"@);
            }
        },
        None => {
            if model_name.len() == 0 {
                assert(name[6] == '/');
            }
            if model_name.contains('/') {
                let j = choose|j: int| 0 <= j < model_name.len() && model_name[j] == '/';
                assert(name[j] == '/');
            }
        },
    }
}

// ---------------------------------------------------------------------------
// Answer recovery
// ---------------------------------------------------------------------------

/// Text of the last `partial_answer` event that has one.
pub open spec fn last_partial_answer(events: Seq<ConversationEvent>) -> Option<Seq<char>>
    decreases events.len(),
{
    if events.len() == 0 {
        None
    } else {
        let e = events.last();
        if e.event_type@ == "partial_answer"@ && e.text is Some {
            Some(e.text->0@)
        } else {
            last_partial_answer(events.drop_last())
        }
    }
}

/// Number of `tool_call_completed` events.
pub open spec fn completed_calls(events: Seq<ConversationEvent>) -> nat
    decreases events.len(),
{
    if events.len() == 0 {
        0
    } else {
        completed_calls(events.drop_last()) + if events.last().event_type@ == "tool_call_completed"@ {
            1nat
        } else {
            0nat
        }
    }
}

/// Answer and tool call count of a run. A replayed run streams nothing new:
/// when it has no answer but the conversation has events, the answer is the
/// text of the last `partial_answer` event (if any), and a zero tool call
/// count becomes the number of `tool_call_completed` events (at most
/// `i32::MAX`).
pub open spec fn recovered_spec(answer: Seq<char>, tool_calls: i32, events: Seq<ConversationEvent>) -> (Seq<char>, int) {
    if answer.len() == 0 && events.len() > 0 {
        (
            match last_partial_answer(events) {
                Some(t) => t,
                None => answer,
            },
            if tool_calls == 0 {
                if completed_calls(events) > i32::MAX {
                    i32::MAX as int
                } else {
                    completed_calls(events) as int
                }
            } else {
                tool_calls as int
            },
        )
    } else {
        (answer, tool_calls as int)
    }
}

pub fn recover_answer(answer: String, tool_calls: i32, events: &Vec<ConversationEvent>) -> (r: (String, i32))
    ensures
        (r.0@, r.1 as int) == recovered_spec(answer@, tool_calls, events@),
{
    if !(answer.as_str().is_empty() && events.len() > 0) {
        return (answer, tool_calls);
    }
    proof {
        reveal_strlit("partial_answer");
        reveal_strlit("tool_call_completed");
    }
    let mut found: Option<String> = None;
    let mut i = events.len();
    proof {
        assert(events@.take(i as int) =~= events@);
    }
    while i > 0 && found.is_none()
        invariant
            i <= events@.len(),
            found is None ==> last_partial_answer(events@) == last_partial_answer(events@.take(i as int)),
            found matches Some(t) ==> last_partial_answer(events@) == Some(t@),
        decreases i,
    {
        proof {
            assert(events@.take(i as int).drop_last() =~= events@.take(i - 1));
        }
        let e = &events[i - 1];
        if str_eq(e.event_type.as_str(), "partial_answer") {
            match &e.text {
                Some(t) => {
                    found = Some(t.clone());
                },
                None => {},
            }
        }
        i = i - 1;
    }
    proof {
        if found is None {
            assert(events@.take(0) =~= Seq::<ConversationEvent>::empty());
        }
    }
    let text = match found {
        Some(t) => t,
        None => answer,
    };
    let mut calls = tool_calls;
    if tool_calls == 0 {
        let mut n: u64 = 0;
        let mut j: usize = 0;
        while j < events.len()
            invariant
                j <= events@.len(),
                n == completed_calls(events@.take(j as int)),
                n <= j,
            decreases events.len() - j,
        {
            proof {
                assert(events@.take(j + 1).drop_last() =~= events@.take(j as int));
            }
            if str_eq(events[j].event_type.as_str(), "tool_call_completed") {
                n = n + 1;
            }
            j = j + 1;
        }
        proof {
            assert(events@.take(events@.len() as int) =~= events@);
        }
        calls = if n > 2147483647 {
            i32::MAX
        } else {
            n as i32
        };
    }
    (text, calls)
}

// ---------------------------------------------------------------------------
// Streaming the agent's events
// ---------------------------------------------------------------------------

/// An event of the agent's stream, as far as the query reacts to it.
#[derive(Debug, Clone)]
pub enum AgentEvent {
    /// The agent finished the turn.
    SessionIdle,
    ToolCallStarted { call_id: String },
    ToolCallCompleted { call_id: String },
    /// The answer so far (cumulative).
    PartialAnswer { text: String },
    /// Reasoning text of a message part (cumulative).
    Thinking { part_index: i32, text: String },
    Error,
    /// Anything else.
    Other,
}

/// Type of the event recorded for an agent event.
#[derive(Debug, Clone, Copy, PartialEq, Eq, Structural)]
pub enum RecordKind {
    ToolCallStarted,
    ToolCallCompleted,
    PartialAnswer,
    Thinking,
    Error,
}

impl RecordKind {
    pub open spec fn name(self) -> Seq<char> {
        match self {
            RecordKind::ToolCallStarted => "tool_call_started"@,
            RecordKind::ToolCallCompleted => "tool_call_completed"@,
            RecordKind::PartialAnswer => "partial_answer"@,
            RecordKind::Thinking => "thinking"@,
            RecordKind::Error => "error"@,
        }
    }

    /// The stored event type.
    pub fn as_str(self) -> (r: &'static str)
        ensures
            r@ == self.name(),
    {
        match self {
            RecordKind::ToolCallStarted => "tool_call_started",
            RecordKind::ToolCallCompleted => "tool_call_completed",
            RecordKind::PartialAnswer => "partial_answer",
            RecordKind::Thinking => "thinking",
            RecordKind::Error => "error",
        }
    }
}

/// What to do with an agent event.
pub enum StreamAction {
    /// Stop streaming.
    Stop,
    /// Record an event of this kind, with the step identity when it has one.
    Record { kind: RecordKind, step: Option<StepIdentity> },
    /// Nothing to record.
    Ignore,
}

/// What a query accumulates while streaming the agent's events.
pub struct QueryStream {
    pub answer_text: String,
    pub tool_calls: i32,
    pub registry: StepRegistry,
}

impl QueryStream {
    pub open spec fn wf(&self) -> bool {
        self.registry.wf() && self.tool_calls >= 0
    }

    /// Nothing streamed yet.
    pub fn new() -> (r: QueryStream)
        ensures
            r.wf(),
            r.answer_text@.len() == 0,
            r.tool_calls == 0,
            r.registry@.next_seq == 0,
            r.registry@.steps.len() == 0,
            r.registry@.thinking == Map::<i32, (u32, Seq<char>)>::empty(),
    {
        QueryStream { answer_text: String::new(), tool_calls: 0, registry: StepRegistry::new() }
    }

    /// Whether another event can be taken: step numbers and the tool call
    /// count are `i32`.
    pub fn has_room(&self) -> (r: bool)
        ensures
            r == (self.registry@.next_seq < i32::MAX && self.tool_calls < i32::MAX),
    {
        self.registry.has_room() && self.tool_calls < i32::MAX
    }

    /// Takes one agent event: the session going idle stops the stream; tool
    /// calls and reasoning get their step identities (a completed call is
    /// counted); a partial answer replaces the answer; errors are recorded;
    /// anything else is ignored.
    pub fn absorb(&mut self, event: &AgentEvent) -> (r: StreamAction)
        requires
            old(self).wf(),
            match *event {
                AgentEvent::ToolCallStarted { call_id } => find_step(old(self).registry@.steps, tool_id(call_id@))
                    is None ==> old(self).registry@.next_seq < i32::MAX,
                AgentEvent::ToolCallCompleted { call_id } => {
                    &&& old(self).tool_calls < i32::MAX
                    &&& find_step(old(self).registry@.steps, tool_id(call_id@)) is None
                        ==> old(self).registry@.next_seq < i32::MAX
                },
                AgentEvent::Thinking { part_index, text } => !thinking_reuses(
                    old(self).registry@,
                    part_index,
                    text@,
                ) ==> old(self).registry@.next_seq < i32::MAX,
                _ => true,
            },
        ensures
            final(self).wf(),
            match *event {
                AgentEvent::SessionIdle => r is Stop && final(self).answer_text@ == old(self).answer_text@
                    && final(self).tool_calls == old(self).tool_calls && final(self).registry@
                    == old(self).registry@,
                AgentEvent::ToolCallStarted { call_id } => {
                    let a = assign(old(self).registry@, tool_id(call_id@));
                    &&& r matches StreamAction::Record { kind, step: Some(id) }
                    &&& kind == RecordKind::ToolCallStarted
                    &&& id.step_id@ == a.1 && id.step_seq as int == a.2
                    &&& final(self).registry@ == a.0
                    &&& final(self).tool_calls == old(self).tool_calls
                    &&& final(self).answer_text@ == old(self).answer_text@
                },
                AgentEvent::ToolCallCompleted { call_id } => {
                    let a = assign(old(self).registry@, tool_id(call_id@));
                    &&& r matches StreamAction::Record { kind, step: Some(id) }
                    &&& kind == RecordKind::ToolCallCompleted
                    &&& id.step_id@ == a.1 && id.step_seq as int == a.2
                    &&& final(self).registry@ == a.0
                    &&& final(self).tool_calls == old(self).tool_calls + 1
                    &&& final(self).answer_text@ == old(self).answer_text@
                },
                AgentEvent::PartialAnswer { text } => r matches StreamAction::Record { kind, step: None }
                    && kind == RecordKind::PartialAnswer && final(self).answer_text@ == text@
                    && final(self).tool_calls == old(self).tool_calls && final(self).registry@
                    == old(self).registry@,
                AgentEvent::Thinking { part_index, text } => {
                    let t = thinking_spec(old(self).registry@, part_index, text@);
                    &&& r matches StreamAction::Record { kind, step: Some(id) }
                    &&& kind == RecordKind::Thinking
                    &&& id.step_id@ == t.1 && id.step_seq as int == t.2
                    &&& final(self).registry@ == t.0
                    &&& final(self).tool_calls == old(self).tool_calls
                    &&& final(self).answer_text@ == old(self).answer_text@
                },
                AgentEvent::Error => r matches StreamAction::Record { kind, step: None } && kind
                    == RecordKind::Error && final(self).answer_text@ == old(self).answer_text@
                    && final(self).tool_calls == old(self).tool_calls && final(self).registry@
                    == old(self).registry@,
                AgentEvent::Other => r is Ignore && final(self).answer_text@ == old(self).answer_text@
                    && final(self).tool_calls == old(self).tool_calls && final(self).registry@
                    == old(self).registry@,
            },
    {
        match event {
            AgentEvent::SessionIdle => StreamAction::Stop,
            AgentEvent::ToolCallStarted { call_id } => {
                let id = self.registry.tool_started(call_id.as_str());
                StreamAction::Record { kind: RecordKind::ToolCallStarted, step: Some(id) }
            },
            AgentEvent::ToolCallCompleted { call_id } => {
                self.tool_calls = self.tool_calls + 1;
                let id = self.registry.tool_completed(call_id.as_str());
                StreamAction::Record { kind: RecordKind::ToolCallCompleted, step: Some(id) }
            },
            AgentEvent::PartialAnswer { text } => {
                self.answer_text = text.clone();
                StreamAction::Record { kind: RecordKind::PartialAnswer, step: None }
            },
            AgentEvent::Thinking { part_index, text } => {
                let id = self.registry.thinking_step(*part_index, text.as_str());
                StreamAction::Record { kind: RecordKind::Thinking, step: Some(id) }
            },
            AgentEvent::Error => StreamAction::Record { kind: RecordKind::Error, step: None },
            AgentEvent::Other => StreamAction::Ignore,
        }
    }
}

/// An artifact the agent uploaded, as it is registered.
#[derive(Debug, Clone)]
pub struct ArtifactUpload {
    /// Storage key relative to the conversations prefix.
    pub artifact_key: String,
    pub display_name: String,
    pub content_type: Option<String>,
    pub size_bytes: i64,
}

/// The artifact key without its `conversations/` prefix.
pub open spec fn artifact_key_spec(raw: Seq<char>) -> Seq<char> {
    match strip_prefix_spec(raw, "conversations/"@) {
        Some(k) => k,
        None => raw,
    }
}

/// Reads an upload reported by the artifact tool: a missing key is empty, a
/// missing display name is `artifact`, a missing size is 0.
pub fn artifact_upload(
    raw_key: &Option<String>,
    display_name: &Option<String>,
    content_type: &Option<String>,
    size_bytes: Option<i64>,
) -> (r: ArtifactUpload)
    ensures
        r.artifact_key@ == artifact_key_spec(
            match raw_key {
                Some(k) => k@,
                None => ""@,
            },
        ),
        r.display_name@ == match display_name {
            Some(d) => d@,
            None => "artifact"@,
        },
        r.content_type == *content_type,
        r.size_bytes == match size_bytes {
            Some(n) => n,
            None => 0,
        },
{
    let raw = match raw_key {
        Some(k) => k.clone(),
        None => String::new(),
    };
    proof {
        reveal_strlit("");
    }
    let artifact_key = match strip_prefix(raw.as_str(), "conversations/") {
        Some(k) => k,
        None => raw,
    };
    let display_name = match display_name {
        Some(d) => d.clone(),
        None => owned("artifact"),
    };
    let content_type = match content_type {
        Some(c) => Some(c.clone()),
        None => None,
    };
    ArtifactUpload {
        artifact_key,
        display_name,
        content_type,
        size_bytes: match size_bytes {
            Some(n) => n,
            None => 0,
        },
    }
}

/// Content type announced for an uploaded artifact (default
/// `application/octet-stream`).
pub fn announced_content_type(content_type: &Option<String>) -> (r: String)
    ensures
        r@ == match content_type {
            Some(c) => c@,
            None => "application/octet-stream"@,
        },
{
    match content_type {
        Some(c) => c.clone(),
        None => owned("application/octet-stream"),
    }
}

pub open spec fn opt_text(o: Option<String>) -> Option<Seq<char>> {
    match o {
        Some(x) => Some(x@),
        None => None,
    }
}

/// The upload a completed tool call reports, when the tool is the artifact
/// upload tool and its output is JSON: the output's `artifact_key` (empty
/// when absent) without its `conversations/` prefix, its `display_name`
/// (`artifact` when absent), its `content_type`, and its `size_bytes` (0
/// when absent).
pub fn artifact_from_tool_output(tool: &str, output: &str) -> (r: Option<ArtifactUpload>)
    ensures
        r is Some <==> (tool@ == "prism_upload_artifact"@ && json_parses(output@)),
        r matches Some(a) ==> {
            &&& a.artifact_key@ == artifact_key_spec(
                match json_string_field(output@, "artifact_key"@) {
                    Some(k) => k,
                    None => ""@,
                },
            )
            &&& a.display_name@ == match json_string_field(output@, "display_name"@) {
                Some(d) => d,
                None => "artifact"@,
            }
            &&& opt_text(a.content_type) == json_string_field(output@, "content_type"@)
            &&& a.size_bytes == match json_i64_field(output@, "size_bytes"@) {
                Some(n) => n,
                None => 0,
            }
        },
{
    if !str_eq(tool, "prism_upload_artifact") {
        return None;
    }
    if !is_json(output) {
        return None;
    }
    let raw_key = read_json_string_field(output, "artifact_key");
    let display_name = read_json_string_field(output, "display_name");
    let content_type = read_json_string_field(output, "content_type");
    let size_bytes = read_json_i64_field(output, "size_bytes");
    proof {
        reveal_strlit("artifact_key");
        reveal_strlit("display_name");
        reveal_strlit("content_type");
        reveal_strlit("size_bytes");
        reveal_strlit("");
        reveal_strlit("artifact");
    }
    let a = artifact_upload(&raw_key, &display_name, &content_type, size_bytes);
    Some(a)
}

/// The conversation a query's object key names: the key parsed as a UUID,
/// or a terminal error `invalid key: {error}` with the parser's message.
pub fn parse_session_key(key: &str) -> (r: Result<u128, TerminalError>)
    ensures
        r matches Ok(v) ==> uuid_parse(key@) == Ok::<u128, Seq<char>>(v),
        r matches Err(t) ==> (uuid_parse(key@) matches Err(e) && t == terminal_error_new(
            prefixed_message("invalid key"@, e),
        )),
{
    match parse_uuid(key) {
        Ok(v) => Ok(v),
        Err(e) => Err(new_terminal_error(terminal_err_message("invalid key", e.as_str()))),
    }
}

} // verus!
