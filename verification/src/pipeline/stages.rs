//! The stage document of an ingestion pipeline run: one entry per stage,
//! each with a status, an optional branch label and its handlers' results.
use vstd::prelude::*;

use crate::errors::{terminal_error_display, terminal_error_text};
use restate_sdk::errors::TerminalError;
use crate::text::{owned, push_str, str_eq};

verus! {

/// Status of a pipeline stage or handler.
#[derive(Debug, Clone, Copy, PartialEq, Eq, Structural)]
pub enum StageStatus {
    Pending,
    Running,
    Completed,
    Failed,
    Skipped,
    Cancelled,
}

impl StageStatus {
    /// The lower-case name under which a status is stored.
    pub open spec fn name(self) -> Seq<char> {
        match self {
            StageStatus::Pending => "pending"@,
            StageStatus::Running => "running"@,
            StageStatus::Completed => "completed"@,
            StageStatus::Failed => "failed"@,
            StageStatus::Skipped => "skipped"@,
            StageStatus::Cancelled => "cancelled"@,
        }
    }

    pub fn as_str(self) -> (r: &'static str)
        ensures
            r@ == self.name(),
    {
        match self {
            StageStatus::Pending => "pending",
            StageStatus::Running => "running",
            StageStatus::Completed => "completed",
            StageStatus::Failed => "failed",
            StageStatus::Skipped => "skipped",
            StageStatus::Cancelled => "cancelled",
        }
    }
}

/// Result of a single handler invocation within a stage.
#[derive(Debug, Clone)]
pub struct HandlerResult {
    pub name: String,
    pub status: StageStatus,
    pub items: Option<i32>,
    pub error: Option<String>,
}

/// One handler line of a stage entry.
#[derive(Debug, Clone)]
pub struct HandlerEntry {
    pub name: String,
    pub status: StageStatus,
    pub items: Option<i32>,
    pub error: Option<String>,
}

/// One stage of the stage document.
#[derive(Debug, Clone)]
pub struct StageEntry {
    pub name: String,
    pub status: Option<StageStatus>,
    pub branch: Option<String>,
    pub handlers: Option<Vec<HandlerEntry>>,
}

/// The stage document: the pipeline's stages in order.
#[derive(Debug, Clone)]
pub struct Stages {
    pub entries: Vec<StageEntry>,
}

pub struct HandlerView {
    pub name: Seq<char>,
    pub status: StageStatus,
    pub items: Option<i32>,
    pub error: Option<Seq<char>>,
}

pub struct StageView {
    pub name: Seq<char>,
    pub status: Option<StageStatus>,
    pub branch: Option<Seq<char>>,
    pub handlers: Option<Seq<HandlerView>>,
}

pub open spec fn opt_str_view(o: Option<String>) -> Option<Seq<char>> {
    match o {
        Some(s) => Some(s@),
        None => None,
    }
}

impl View for HandlerEntry {
    type V = HandlerView;

    open spec fn view(&self) -> HandlerView {
        HandlerView {
            name: self.name@,
            status: self.status,
            items: self.items,
            error: opt_str_view(self.error),
        }
    }
}

pub open spec fn handlers_view(hs: Seq<HandlerEntry>) -> Seq<HandlerView> {
    hs.map_values(|h: HandlerEntry| h@)
}

impl View for StageEntry {
    type V = StageView;

    open spec fn view(&self) -> StageView {
        StageView {
            name: self.name@,
            status: self.status,
            branch: opt_str_view(self.branch),
            handlers: match self.handlers {
                Some(hs) => Some(handlers_view(hs@)),
                None => None,
            },
        }
    }
}

impl View for Stages {
    type V = Seq<StageView>;

    open spec fn view(&self) -> Seq<StageView> {
        self.entries@.map_values(|e: StageEntry| e@)
    }
}

pub fn dup_opt_string(o: &Option<String>) -> (r: Option<String>)
    ensures
        opt_str_view(r) == opt_str_view(*o),
{
    match o {
        Some(s) => Some(s.clone()),
        None => None,
    }
}

impl HandlerEntry {
    /// An equal copy of this handler line.
    pub fn duplicate(&self) -> (r: HandlerEntry)
        ensures
            r@ == self@,
    {
        HandlerEntry {
            name: self.name.clone(),
            status: self.status,
            items: self.items,
            error: dup_opt_string(&self.error),
        }
    }
}

pub fn dup_handlers(hs: &Vec<HandlerEntry>) -> (r: Vec<HandlerEntry>)
    ensures
        handlers_view(r@) == handlers_view(hs@),
{
    let mut out: Vec<HandlerEntry> = Vec::new();
    let mut i: usize = 0;
    while i < hs.len()
        invariant
            i <= hs@.len(),
            out@.len() == i,
            forall|k: int| 0 <= k < i ==> (#[trigger] out@[k])@ == hs@[k]@,
        decreases hs.len() - i,
    {
        out.push(hs[i].duplicate());
        i = i + 1;
    }
    proof {
        assert(handlers_view(out@) =~= handlers_view(hs@));
    }
    out
}

impl StageEntry {
    /// An equal copy of this stage entry.
    pub fn duplicate(&self) -> (r: StageEntry)
        ensures
            r@ == self@,
    {
        let handlers = match &self.handlers {
            Some(hs) => Some(dup_handlers(hs)),
            None => None,
        };
        StageEntry {
            name: self.name.clone(),
            status: self.status,
            branch: dup_opt_string(&self.branch),
            handlers,
        }
    }
}

/// The handler line recorded for a handler result.
pub open spec fn result_view(r: HandlerResult) -> HandlerView {
    HandlerView { name: r.name@, status: r.status, items: r.items, error: opt_str_view(r.error) }
}

pub open spec fn results_view(rs: Seq<HandlerResult>) -> Seq<HandlerView> {
    rs.map_values(|r: HandlerResult| result_view(r))
}

// ---------------------------------------------------------------------------
// Stage names and branches
// ---------------------------------------------------------------------------

/// Ordered list of all pipeline stages.
pub open spec fn stage_names() -> Seq<Seq<char>> {
    seq![
        "team_sync"@,
        "ingestion"@,
        "metrics"@,
        "enrichment"@,
        "embedding"@,
        "insights"@,
        "identity_resolution"@,
    ]
}

/// Which branch a stage belongs to (for the fork after ingestion).
pub open spec fn branch_of(stage: Seq<char>) -> Seq<char> {
    if stage == "identity_resolution"@ {
        "identity"@
    } else if stage == "team_sync"@ || stage == "ingestion"@ {
        "pre_fork"@
    } else {
        "main"@
    }
}

pub fn stage_branch(stage: &str) -> (r: &'static str)
    ensures
        r@ == branch_of(stage@),
{
    if str_eq(stage, "identity_resolution") {
        "identity"
    } else if str_eq(stage, "team_sync") || str_eq(stage, "ingestion") {
        "pre_fork"
    } else {
        "main"
    }
}

// ---------------------------------------------------------------------------
// Initial document
// ---------------------------------------------------------------------------

/// A stage takes part in the run unless it is conditional and not applicable.
pub open spec fn stage_included(name: Seq<char>, has_github: bool, has_discourse: bool) -> bool {
    !(name == "team_sync"@ && !has_github) && !(name == "identity_resolution"@ && !has_discourse)
}

/// All handler names listed for `stage`, in the order of `pairs`.
pub open spec fn handlers_for(stage: Seq<char>, pairs: Seq<(Seq<char>, Seq<Seq<char>>)>) -> Seq<Seq<char>>
    decreases pairs.len(),
{
    if pairs.len() == 0 {
        seq![]
    } else {
        handlers_for(stage, pairs.drop_last()) + if pairs.last().0 == stage {
            pairs.last().1
        } else {
            seq![]
        }
    }
}

pub open spec fn pending_handler(name: Seq<char>) -> HandlerView {
    HandlerView { name, status: StageStatus::Pending, items: None, error: None }
}

/// The initial entry of a stage: pending, with its branch label (none for
/// the stages before the fork) and all of its handlers pending.
pub open spec fn initial_stage(name: Seq<char>, pairs: Seq<(Seq<char>, Seq<Seq<char>>)>) -> StageView {
    StageView {
        name,
        status: Some(StageStatus::Pending),
        branch: if branch_of(name) == "pre_fork"@ { None } else { Some(branch_of(name)) },
        handlers: Some(handlers_for(name, pairs).map_values(|h: Seq<char>| pending_handler(h))),
    }
}

/// The initial document built from the first `n` stage names.
pub open spec fn initial_prefix(
    n: nat,
    has_github: bool,
    has_discourse: bool,
    pairs: Seq<(Seq<char>, Seq<Seq<char>>)>,
) -> Seq<StageView>
    decreases n,
{
    if n == 0 {
        seq![]
    } else {
        let name = stage_names()[n - 1];
        initial_prefix((n - 1) as nat, has_github, has_discourse, pairs) + if stage_included(
            name,
            has_github,
            has_discourse,
        ) {
            seq![initial_stage(name, pairs)]
        } else {
            seq![]
        }
    }
}

/// The initial stage document.
pub open spec fn initial_stages(
    has_github: bool,
    has_discourse: bool,
    pairs: Seq<(Seq<char>, Seq<Seq<char>>)>,
) -> Seq<StageView> {
    initial_prefix(7, has_github, has_discourse, pairs)
}

pub open spec fn pairs_view(pairs: Seq<(&str, Vec<String>)>) -> Seq<(Seq<char>, Seq<Seq<char>>)> {
    pairs.map_values(|p: (&str, Vec<String>)| (p.0@, p.1@.map_values(|s: String| s@)))
}

fn stage_name_at(i: usize) -> (r: &'static str)
    requires
        i < 7,
    ensures
        r@ == stage_names()[i as int],
{
    if i == 0 {
        "team_sync"
    } else if i == 1 {
        "ingestion"
    } else if i == 2 {
        "metrics"
    } else if i == 3 {
        "enrichment"
    } else if i == 4 {
        "embedding"
    } else if i == 5 {
        "insights"
    } else {
        "identity_resolution"
    }
}

/// Pending handler lines for every name listed for `stage`.
fn pending_handlers(stage: &str, handler_names: &[(&str, Vec<String>)]) -> (r: Vec<HandlerEntry>)
    ensures
        handlers_view(r@) == handlers_for(stage@, pairs_view(handler_names@)).map_values(
            |h: Seq<char>| pending_handler(h),
        ),
{
    let ghost pairs = pairs_view(handler_names@);
    let mut out: Vec<HandlerEntry> = Vec::new();
    let mut i: usize = 0;
    while i < handler_names.len()
        invariant
            i <= handler_names@.len(),
            pairs == pairs_view(handler_names@),
            handlers_view(out@) == handlers_for(stage@, pairs.take(i as int)).map_values(
                |h: Seq<char>| pending_handler(h),
            ),
        decreases handler_names.len() - i,
    {
        let ghost before = out@;
        proof {
            assert(pairs.take(i + 1).drop_last() =~= pairs.take(i as int));
            assert(pairs.take(i + 1).last() == pairs[i as int]);
        }
        if str_eq(handler_names[i].0, stage) {
            let names = &handler_names[i].1;
            let mut j: usize = 0;
            while j < names.len()
                invariant
                    j <= names@.len(),
                    names@ == handler_names@[i as int].1@,
                    out@.len() == before.len() + j,
                    forall|k: int| 0 <= k < before.len() ==> out@[k] == before[k],
                    forall|k: int|
                        0 <= k < j ==> (#[trigger] out@[before.len() + k])@ == pending_handler(
                            names@[k]@,
                        ),
                decreases names.len() - j,
            {
                out.push(HandlerEntry {
                    name: names[j].clone(),
                    status: StageStatus::Pending,
                    items: None,
                    error: None,
                });
                j = j + 1;
            }
            proof {
                let added = pairs[i as int].1.map_values(|h: Seq<char>| pending_handler(h));
                assert(handlers_view(out@) =~= handlers_view(before) + added) by {
                    assert forall|k: int| 0 <= k < out@.len() implies #[trigger] handlers_view(out@)[k]
                        == (handlers_view(before) + added)[k] by {
                        if k >= before.len() {
                            assert(out@[before.len() + (k - before.len())] == out@[k]);
                        }
                    }
                }
                assert(handlers_for(stage@, pairs.take(i + 1)) =~= handlers_for(
                    stage@,
                    pairs.take(i as int),
                ) + pairs[i as int].1);
                assert((handlers_for(stage@, pairs.take(i as int)) + pairs[i as int].1).map_values(
                    |h: Seq<char>| pending_handler(h),
                ) =~= handlers_for(stage@, pairs.take(i as int)).map_values(
                    |h: Seq<char>| pending_handler(h),
                ) + added);
            }
        } else {
            proof {
                assert(handlers_for(stage@, pairs.take(i + 1)) =~= handlers_for(
                    stage@,
                    pairs.take(i as int),
                ));
            }
        }
        i = i + 1;
    }
    proof {
        assert(pairs.take(handler_names@.len() as int) =~= pairs);
    }
    out
}

/// Builds the initial stage document with all stages pending.
pub fn build_initial_stages(
    has_github: bool,
    has_discourse: bool,
    handler_names: &[(&str, Vec<String>)],
) -> (r: Stages)
    ensures
        r@ == initial_stages(has_github, has_discourse, pairs_view(handler_names@)),
{
    let ghost pairs = pairs_view(handler_names@);
    let mut entries: Vec<StageEntry> = Vec::new();
    let mut i: usize = 0;
    while i < 7
        invariant
            i <= 7,
            pairs == pairs_view(handler_names@),
            entries@.map_values(|e: StageEntry| e@) == initial_prefix(
                i as nat,
                has_github,
                has_discourse,
                pairs,
            ),
        decreases 7 - i,
    {
        let stage_name = stage_name_at(i);
        let ghost before = entries@;
        if (str_eq(stage_name, "team_sync") && !has_github) || (str_eq(
            stage_name,
            "identity_resolution",
        ) && !has_discourse) {
            proof {
                assert(initial_prefix((i + 1) as nat, has_github, has_discourse, pairs)
                    =~= initial_prefix(i as nat, has_github, has_discourse, pairs));
            }
        } else {
            let handlers = pending_handlers(stage_name, handler_names);
            let b = stage_branch(stage_name);
            let branch = if str_eq(b, "pre_fork") {
                None
            } else {
                Some(owned(b))
            };
            let entry = StageEntry {
                name: owned(stage_name),
                status: Some(StageStatus::Pending),
                branch,
                handlers: Some(handlers),
            };
            entries.push(entry);
            proof {
                assert(entries@ =~= before.push(entry));
                assert(entry@ == initial_stage(stage_name@, pairs));
                assert(entries@.map_values(|e: StageEntry| e@) =~= before.map_values(
                    |e: StageEntry| e@,
                ).push(entry@));
            }
        }
        i = i + 1;
    }
    Stages { entries }
}

// ---------------------------------------------------------------------------
// Updating the document
// ---------------------------------------------------------------------------

/// `stages` with `f` applied to every entry named `name`.
pub open spec fn update_named(
    stages: Seq<StageView>,
    name: Seq<char>,
    f: spec_fn(StageView) -> StageView,
) -> Seq<StageView> {
    stages.map_values(|e: StageView| if e.name == name { f(e) } else { e })
}

pub open spec fn with_status(e: StageView, s: StageStatus) -> StageView {
    StageView { status: Some(s), ..e }
}

/// Sets the status of every entry named `stage_name`.
fn set_status_named(stages: &mut Stages, stage_name: &str, status: StageStatus)
    ensures
        final(stages)@ == update_named(
            old(stages)@,
            stage_name@,
            |e: StageView| with_status(e, status),
        ),
{
    let ghost old_view = stages@;
    let mut i: usize = 0;
    while i < stages.entries.len()
        invariant
            i <= stages.entries@.len(),
            old_view.len() == stages.entries@.len(),
            forall|k: int|
                0 <= k < i ==> (#[trigger] stages.entries@[k])@ == (if old_view[k].name
                    == stage_name@ {
                    with_status(old_view[k], status)
                } else {
                    old_view[k]
                }),
            forall|k: int| i <= k < old_view.len() ==> (#[trigger] stages.entries@[k])@ == old_view[k],
        decreases stages.entries.len() - i,
    {
        if str_eq(&stages.entries[i].name, stage_name) {
            let mut e = stages.entries[i].duplicate();
            e.status = Some(status);
            stages.entries.set(i, e);
        }
        i = i + 1;
    }
    proof {
        assert(stages@ =~= update_named(old_view, stage_name@, |e: StageView| with_status(e, status)));
    }
}

/// Updates a stage to running.
pub fn mark_stage_running(stages: &mut Stages, stage_name: &str)
    ensures
        final(stages)@ == update_named(
            old(stages)@,
            stage_name@,
            |e: StageView| with_status(e, StageStatus::Running),
        ),
{
    set_status_named(stages, stage_name, StageStatus::Running);
}

/// Marks a stage as skipped.
pub fn mark_stage_skipped(stages: &mut Stages, stage_name: &str)
    ensures
        final(stages)@ == update_named(
            old(stages)@,
            stage_name@,
            |e: StageView| with_status(e, StageStatus::Skipped),
        ),
{
    set_status_named(stages, stage_name, StageStatus::Skipped);
}

/// Overall stage status derived from its handlers' results: failed when there
/// is at least one result and all of them failed, completed otherwise.
pub open spec fn stage_status_of(results: Seq<HandlerResult>) -> StageStatus {
    if results.len() > 0 && forall|i: int| 0 <= i < results.len() ==> (#[trigger] results[i]).status
        == StageStatus::Failed {
        StageStatus::Failed
    } else {
        StageStatus::Completed
    }
}

/// Derives the overall stage status from individual handler results.
pub fn derive_stage_status(results: &[HandlerResult]) -> (r: StageStatus)
    ensures
        r == stage_status_of(results@),
        r == StageStatus::Failed <==> (results@.len() > 0 && forall|i: int|
            0 <= i < results@.len() ==> (#[trigger] results@[i]).status == StageStatus::Failed),
{
    if results.len() == 0 {
        return StageStatus::Completed;
    }
    let mut all_failed = true;
    let mut i: usize = 0;
    while i < results.len()
        invariant
            i <= results@.len(),
            all_failed == forall|k: int|
                0 <= k < i ==> (#[trigger] results@[k]).status == StageStatus::Failed,
        decreases results.len() - i,
    {
        if results[i].status != StageStatus::Failed {
            all_failed = false;
        }
        i = i + 1;
    }
    if all_failed {
        StageStatus::Failed
    } else {
        StageStatus::Completed
    }
}

/// The entry of a completed stage: its derived status and one handler line
/// per result.
pub open spec fn with_results(e: StageView, results: Seq<HandlerResult>) -> StageView {
    StageView {
        status: Some(stage_status_of(results)),
        handlers: Some(results_view(results)),
        ..e
    }
}

fn handler_entries(results: &[HandlerResult]) -> (r: Vec<HandlerEntry>)
    ensures
        handlers_view(r@) == results_view(results@),
{
    let mut out: Vec<HandlerEntry> = Vec::new();
    let mut i: usize = 0;
    while i < results.len()
        invariant
            i <= results@.len(),
            out@.len() == i,
            forall|k: int| 0 <= k < i ==> (#[trigger] out@[k])@ == result_view(results@[k]),
        decreases results.len() - i,
    {
        let r = &results[i];
        out.push(HandlerEntry {
            name: r.name.clone(),
            status: r.status,
            items: r.items,
            error: r.error.clone(),
        });
        i = i + 1;
    }
    proof {
        assert(handlers_view(out@) =~= results_view(results@));
    }
    out
}

/// Records handler results on a stage and sets its overall status.
pub fn mark_stage_complete(stages: &mut Stages, stage_name: &str, results: &[HandlerResult])
    ensures
        final(stages)@ == update_named(
            old(stages)@,
            stage_name@,
            |e: StageView| with_results(e, results@),
        ),
{
    let overall = derive_stage_status(results);
    let ghost old_view = stages@;
    let mut i: usize = 0;
    while i < stages.entries.len()
        invariant
            i <= stages.entries@.len(),
            old_view.len() == stages.entries@.len(),
            overall == stage_status_of(results@),
            forall|k: int|
                0 <= k < i ==> (#[trigger] stages.entries@[k])@ == (if old_view[k].name
                    == stage_name@ {
                    with_results(old_view[k], results@)
                } else {
                    old_view[k]
                }),
            forall|k: int| i <= k < old_view.len() ==> (#[trigger] stages.entries@[k])@ == old_view[k],
        decreases stages.entries.len() - i,
    {
        if str_eq(&stages.entries[i].name, stage_name) {
            let mut e = stages.entries[i].duplicate();
            e.status = Some(overall);
            e.handlers = Some(handler_entries(results));
            stages.entries.set(i, e);
        }
        i = i + 1;
    }
    proof {
        assert(stages@ =~= update_named(
            old_view,
            stage_name@,
            |e: StageView| with_results(e, results@),
        ));
    }
}

/// Entry after cancellation: pending becomes cancelled, any other status stays.
pub open spec fn cancel_if_pending(e: StageView) -> StageView {
    if e.status == Some(StageStatus::Pending) {
        with_status(e, StageStatus::Cancelled)
    } else {
        e
    }
}

/// The document with every pending stage cancelled.
pub open spec fn cancel_remaining(stages: Seq<StageView>) -> Seq<StageView> {
    stages.map_values(|e: StageView| cancel_if_pending(e))
}

/// Marks remaining pending stages as cancelled.
pub fn mark_remaining_cancelled(stages: &mut Stages)
    ensures
        final(stages)@ == cancel_remaining(old(stages)@),
{
    let ghost old_view = stages@;
    let mut i: usize = 0;
    while i < stages.entries.len()
        invariant
            i <= stages.entries@.len(),
            old_view.len() == stages.entries@.len(),
            forall|k: int| 0 <= k < i ==> (#[trigger] stages.entries@[k])@ == cancel_if_pending(old_view[k]),
            forall|k: int| i <= k < old_view.len() ==> (#[trigger] stages.entries@[k])@ == old_view[k],
        decreases stages.entries.len() - i,
    {
        if stages.entries[i].status == Some(StageStatus::Pending) {
            let mut e = stages.entries[i].duplicate();
            e.status = Some(StageStatus::Cancelled);
            stages.entries.set(i, e);
        }
        i = i + 1;
    }
    proof {
        assert(stages@ =~= cancel_remaining(old_view));
    }
}

// ---------------------------------------------------------------------------
// Pipeline status
// ---------------------------------------------------------------------------

pub open spec fn any_stage_with(stages: Seq<StageView>, s: StageStatus) -> bool {
    exists|i: int| 0 <= i < stages.len() && (#[trigger] stages[i]).status == Some(s)
}

pub open spec fn handler_failed(e: StageView) -> bool {
    match e.handlers {
        Some(hs) => exists|j: int| 0 <= j < hs.len() && (#[trigger] hs[j]).status == StageStatus::Failed,
        None => false,
    }
}

pub open spec fn any_handler_failed(stages: Seq<StageView>) -> bool {
    exists|i: int| 0 <= i < stages.len() && handler_failed(#[trigger] stages[i])
}

/// Final pipeline status: cancelled if any stage was cancelled, else failed if
/// any stage failed, else completed with warnings if any handler failed, else
/// completed.
pub open spec fn pipeline_status_of(stages: Seq<StageView>) -> Seq<char> {
    if any_stage_with(stages, StageStatus::Cancelled) {
        "cancelled"@
    } else if any_stage_with(stages, StageStatus::Failed) {
        "failed"@
    } else if any_handler_failed(stages) {
        "completed_with_warnings"@
    } else {
        "completed"@
    }
}

fn entry_handler_failed(e: &StageEntry) -> (r: bool)
    ensures
        r == handler_failed(e@),
{
    match &e.handlers {
        None => false,
        Some(hs) => {
            let mut i: usize = 0;
            while i < hs.len()
                invariant
                    i <= hs@.len(),
                    e.handlers == Some(*hs),
                    forall|k: int| 0 <= k < i ==> (#[trigger] hs@[k]).status != StageStatus::Failed,
                decreases hs.len() - i,
            {
                if hs[i].status == StageStatus::Failed {
                    proof {
                        assert(handlers_view(hs@).len() == hs@.len());
                        assert(handlers_view(hs@)[i as int] == hs@[i as int]@);
                        assert(e.handlers == Some(*hs));
                        assert(e@.handlers == Some(handlers_view(hs@)));
                        assert(handlers_view(hs@)[i as int].status == StageStatus::Failed);
                    }
                    return true;
                }
                i = i + 1;
            }
            proof {
                assert forall|j: int| 0 <= j < handlers_view(hs@).len() implies (#[trigger] handlers_view(
                    hs@,
                )[j]).status != StageStatus::Failed by {
                    assert(hs@[j].status != StageStatus::Failed);
                }
            }
            false
        },
    }
}

/// Derives the final pipeline status from all stage statuses.
pub fn derive_pipeline_status(stages: &Stages) -> (r: &'static str)
    ensures
        r@ == pipeline_status_of(stages@),
{
    let mut any_failed = false;
    let mut any_cancelled = false;
    let mut any_handler = false;
    let mut i: usize = 0;
    while i < stages.entries.len()
        invariant
            i <= stages.entries@.len(),
            any_failed == exists|k: int|
                0 <= k < i && (#[trigger] stages.entries@[k]).status == Some(StageStatus::Failed),
            any_cancelled == exists|k: int|
                0 <= k < i && (#[trigger] stages.entries@[k]).status == Some(StageStatus::Cancelled),
            any_handler == exists|k: int| 0 <= k < i && handler_failed((#[trigger] stages.entries@[k])@),
        decreases stages.entries.len() - i,
    {
        let e = &stages.entries[i];
        if e.status == Some(StageStatus::Failed) {
            any_failed = true;
        }
        if e.status == Some(StageStatus::Cancelled) {
            any_cancelled = true;
        }
        if entry_handler_failed(e) {
            any_handler = true;
        }
        i = i + 1;
    }
    proof {
        let v = stages@;
        if any_cancelled {
            let k = choose|k: int|
                0 <= k < i && (#[trigger] stages.entries@[k]).status == Some(StageStatus::Cancelled);
            assert(v[k].status == Some(StageStatus::Cancelled));
        } else {
            assert forall|k: int| 0 <= k < v.len() implies (#[trigger] v[k]).status != Some(
                StageStatus::Cancelled,
            ) by {
                assert(v[k] == stages.entries@[k]@);
            }
        }
        if any_failed {
            let k = choose|k: int|
                0 <= k < i && (#[trigger] stages.entries@[k]).status == Some(StageStatus::Failed);
            assert(v[k].status == Some(StageStatus::Failed));
        } else {
            assert forall|k: int| 0 <= k < v.len() implies (#[trigger] v[k]).status != Some(
                StageStatus::Failed,
            ) by {
                assert(v[k] == stages.entries@[k]@);
            }
        }
        if any_handler {
            let k = choose|k: int| 0 <= k < i && handler_failed((#[trigger] stages.entries@[k])@);
            assert(handler_failed(v[k]));
        } else {
            assert forall|k: int| 0 <= k < v.len() implies !handler_failed(#[trigger] v[k]) by {
                assert(v[k] == stages.entries@[k]@);
            }
        }
    }
    if any_cancelled {
        "cancelled"
    } else if any_failed {
        "failed"
    } else if any_handler {
        "completed_with_warnings"
    } else {
        "completed"
    }
}

/// Result returned from the pipeline workflow.
#[derive(Debug, Clone)]
pub struct PipelineResult {
    pub pipeline_id: String,
    pub status: String,
}

/// Status response for a status query.
#[derive(Debug, Clone)]
pub struct PipelineStatus {
    pub current_stage: Option<String>,
    pub stages: Stages,
}

/// Lightweight source info: name and the platform's string form
/// (e.g. `"github"`, `"discourse_ubuntu"`).
#[derive(Debug, Clone)]
pub struct SourceInfo {
    pub name: String,
    pub source_type: String,
}

/// The handler result recorded for a handler call: completed when the call
/// succeeded, failed (with the error's display text) when it did not.
pub fn call_result(name: String, result: &Result<(), TerminalError>) -> (r: HandlerResult)
    ensures
        r.name@ == name@,
        r.status == (if result is Ok { StageStatus::Completed } else { StageStatus::Failed }),
        r.items is None,
        match result {
            Ok(_) => r.error is None,
            Err(e) => r.error matches Some(t) && t@ == terminal_error_display(*e),
        },
{
    match result {
        Ok(()) => HandlerResult { name, status: StageStatus::Completed, items: None, error: None },
        Err(e) => HandlerResult {
            name,
            status: StageStatus::Failed,
            items: None,
            error: Some(terminal_error_text(e)),
        },
    }
}

pub open spec fn source_view(s: SourceInfo) -> (Seq<char>, Seq<char>) {
    (s.name@, s.source_type@)
}

/// `"{name} Team Sync"` for every GitHub source, in order.
pub open spec fn team_sync_names(sources: Seq<(Seq<char>, Seq<char>)>) -> Seq<Seq<char>>
    decreases sources.len(),
{
    if sources.len() == 0 {
        seq![]
    } else {
        team_sync_names(sources.drop_last()) + if sources.last().1 == "github"@ {
            seq![sources.last().0 + " Team Sync"@]
        } else {
            seq![]
        }
    }
}

pub open spec fn source_names(sources: Seq<(Seq<char>, Seq<char>)>) -> Seq<Seq<char>> {
    sources.map_values(|s: (Seq<char>, Seq<char>)| s.0)
}

/// The handler names of every stage, in stage order.
pub open spec fn handler_list_of(
    sources: Seq<(Seq<char>, Seq<char>)>,
    has_github: bool,
    has_discourse: bool,
) -> Seq<(Seq<char>, Seq<Seq<char>>)> {
    (if has_github {
        seq![("team_sync"@, team_sync_names(sources))]
    } else {
        seq![]
    }) + seq![
        ("ingestion"@, source_names(sources)),
        ("metrics"@, seq!["Metrics"@]),
        ("enrichment"@, seq!["Enrichment"@]),
        ("embedding"@, seq!["Embedding"@]),
        ("insights"@, seq!["Insights"@]),
    ] + (if has_discourse {
        seq![("identity_resolution"@, seq!["Identity Resolution"@])]
    } else {
        seq![]
    })
}

fn one_name(s: &str) -> (r: Vec<String>)
    ensures
        r@.map_values(|x: String| x@) == seq![s@],
{
    let mut v: Vec<String> = Vec::new();
    v.push(owned(s));
    proof {
        assert(v@.map_values(|x: String| x@) =~= seq![s@]);
    }
    v
}

/// Builds the handler name list of the initial stage document.
pub fn build_handler_list(
    sources: &[SourceInfo],
    has_github: bool,
    has_discourse: bool,
) -> (r: Vec<(&'static str, Vec<String>)>)
    ensures
        pairs_view(r@) == handler_list_of(
            sources@.map_values(|s: SourceInfo| source_view(s)),
            has_github,
            has_discourse,
        ),
{
    let ghost srcs = sources@.map_values(|s: SourceInfo| source_view(s));
    let mut list: Vec<(&'static str, Vec<String>)> = Vec::new();
    if has_github {
        let mut github_names: Vec<String> = Vec::new();
        let mut i: usize = 0;
        while i < sources.len()
            invariant
                i <= sources@.len(),
                srcs == sources@.map_values(|s: SourceInfo| source_view(s)),
                github_names@.map_values(|x: String| x@) == team_sync_names(srcs.take(i as int)),
            decreases sources.len() - i,
        {
            proof {
                assert(srcs.take(i + 1).drop_last() =~= srcs.take(i as int));
            }
            let ghost before = github_names@;
            if str_eq(&sources[i].source_type, "github") {
                let mut n = sources[i].name.clone();
                push_str(&mut n, " Team Sync");
                github_names.push(n);
                proof {
                    assert(github_names@.map_values(|x: String| x@) =~= before.map_values(
                        |x: String| x@,
                    ).push(n@));
                }
            } else {
                proof {
                    assert(team_sync_names(srcs.take(i + 1)) =~= team_sync_names(srcs.take(i as int)));
                }
            }
            i = i + 1;
        }
        proof {
            assert(srcs.take(sources@.len() as int) =~= srcs);
        }
        list.push(("team_sync", github_names));
    }
    let mut ingestion_names: Vec<String> = Vec::new();
    let mut i: usize = 0;
    while i < sources.len()
        invariant
            i <= sources@.len(),
            srcs == sources@.map_values(|s: SourceInfo| source_view(s)),
            ingestion_names@.map_values(|x: String| x@) == source_names(srcs.take(i as int)),
        decreases sources.len() - i,
    {
        let ghost before = ingestion_names@;
        let n = sources[i].name.clone();
        ingestion_names.push(n);
        proof {
            assert(srcs[i as int].0 == n@);
            assert(source_names(srcs.take(i + 1)) =~= source_names(srcs.take(i as int)).push(n@));
            assert(ingestion_names@.map_values(|x: String| x@) =~= before.map_values(|x: String| x@).push(n@));
        }
        i = i + 1;
    }
    proof {
        assert(srcs.take(sources@.len() as int) =~= srcs);
    }
    list.push(("ingestion", ingestion_names));
    list.push(("metrics", one_name("Metrics")));
    list.push(("enrichment", one_name("Enrichment")));
    list.push(("embedding", one_name("Embedding")));
    list.push(("insights", one_name("Insights")));
    if has_discourse {
        list.push(("identity_resolution", one_name("Identity Resolution")));
    }
    proof {
        assert(pairs_view(list@) =~= handler_list_of(srcs, has_github, has_discourse));
    }
    list
}

} // verus!
