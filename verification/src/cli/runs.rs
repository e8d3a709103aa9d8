//! Runs of workflows: their names, where they are kept, and how they are taken on.

use vstd::prelude::*;
use crate::paths::{join_path, join_path3, joined, joined3};
use crate::text::{
    cat2, cat3, cat4, chars_of, debug_string, debug_text, decimal, decimal_string, outcome, str_eq,
};
use crate::types::time::{Timestamp, TimestampView};
use crate::types::workflows::WorkflowGraphV1View;
use crate::workflows::engine::{
    applied, countable, next, pending_action, started, Components, WorkflowEngine,
};
use crate::workflows::model::{
    terminal, workflow_error_text, StoreWrite, StoreWriteView, WorkflowAction,
    WorkflowActionResult, WorkflowActionResultView, WorkflowActionView, WorkflowErrorView,
    WorkflowRunState, WorkflowRunStateView, WorkflowRunStatus, ArtifactStoreConfigView,
};
use crate::workflows::store::ArtifactStore;

verus! {

pub open spec fn state_root(home: Seq<char>) -> Seq<char> {
    joined3(home, "printrevolt"@, "state"@, "workflows"@)
}

/// Where the states of runs are kept.
pub fn workflows_state_root(codex_home: &str) -> (r: String)
    ensures
        r@ == state_root(codex_home@),
{
    join_path3(codex_home, "printrevolt", "state", "workflows")
}

pub open spec fn state_path(home: Seq<char>, run_id: Seq<char>) -> Seq<char> {
    joined(state_root(home), run_id + ".json"@)
}

/// The file of a run's state.
pub fn workflow_run_state_path(codex_home: &str, run_id: &str) -> (r: String)
    ensures
        r@ == state_path(codex_home@, run_id@),
{
    let root = workflows_state_root(codex_home);
    let name = cat2(run_id, ".json");
    join_path(root.as_str(), name.as_str())
}

/// Where artifacts are kept.
pub fn workflow_artifacts_root(codex_home: &str) -> (r: String)
    ensures
        r@ == joined3(codex_home@, "printrevolt"@, "artifacts"@, "workflows"@),
{
    join_path3(codex_home, "printrevolt", "artifacts", "workflows")
}

/// Whether a character can stand in a run's name.
pub open spec fn id_char(c: char) -> bool {
    ('a' <= c && c <= 'z') || ('A' <= c && c <= 'Z') || ('0' <= c && c <= '9') || c == '-' || c
        == '_'
}

pub open spec fn safe_char(c: char) -> char {
    if id_char(c) {
        c
    } else {
        '_'
    }
}

/// A text as the name of a run: what cannot stand in one is replaced, and a name is
/// never empty.
pub open spec fn safe_id(raw: Seq<char>) -> Seq<char> {
    if raw.len() == 0 {
        "workflow-run"@
    } else {
        raw.map_values(|c: char| safe_char(c))
    }
}

pub fn sanitize_run_id(raw: &str) -> (r: String)
    ensures
        r@ == safe_id(raw@),
{
    let v = chars_of(raw);
    if v.len() == 0 {
        return "workflow-run".to_owned();
    }
    let ghost all = raw@.map_values(|c: char| safe_char(c));
    let mut out = String::new();
    let mut i: usize = 0;
    while i < v.len()
        invariant
            i <= v@.len(),
            v@ == raw@,
            all == raw@.map_values(|c: char| safe_char(c)),
            out@ == all.subrange(0, i as int),
        decreases v.len() - i,
    {
        let c: char = v[i];
        if ('a' <= c && c <= 'z') || ('A' <= c && c <= 'Z') || ('0' <= c && c <= '9') || c == '-'
            || c == '_' {
            out.push(c);
        } else {
            out.push('_');
        }
        i = i + 1;
        assert(out@ =~= all.subrange(0, i as int));
    }
    assert(all.subrange(0, i as int) =~= all);
    out
}

proof fn default_id_is_safe()
    ensures
        forall|i: int| 0 <= i < "workflow-run"@.len() ==> id_char(#[trigger] "workflow-run"@[i]),
        "workflow-run"@.len() > 0,
{
    reveal_strlit("workflow-run");
}

/// A run's name holds nothing that means something in a path, and is not empty; a text
/// that can be a name is taken as it is.
pub proof fn run_ids_are_names(raw: Seq<char>)
    ensures
        safe_id(raw).len() > 0,
        forall|i: int| 0 <= i < safe_id(raw).len() ==> id_char(#[trigger] safe_id(raw)[i]),
        raw.len() > 0 && (forall|i: int| 0 <= i < raw.len() ==> id_char(#[trigger] raw[i]))
            ==> safe_id(raw) == raw,
        safe_id(safe_id(raw)) == safe_id(raw),
{
    default_id_is_safe();
    if raw.len() > 0 && (forall|i: int| 0 <= i < raw.len() ==> id_char(#[trigger] raw[i])) {
        assert(safe_id(raw) =~= raw);
    }
    let once = safe_id(raw);
    assert(safe_id(once) =~= once);
}

/// The name of a run that starts now, in seconds.
pub open spec fn fresh_id(workflow_id: Seq<char>, now: u64) -> Seq<char> {
    safe_id(workflow_id) + "-"@ + decimal(now as nat)
}

pub fn generate_run_id(workflow_id: &str, now_secs: u64) -> (r: String)
    ensures
        r@ == fresh_id(workflow_id@, now_secs),
{
    let id = sanitize_run_id(workflow_id);
    let n = decimal_string(now_secs);
    cat3(id.as_str(), "-", n.as_str())
}

/// A file where states of runs are kept.
pub struct RunFile {
    /// What follows the last dot of its name.
    pub extension: Option<String>,
    /// Its name up to there.
    pub stem: Option<String>,
    /// Whether it holds the state of a run.
    pub readable: bool,
    /// The workflow that the run belongs to.
    pub workflow_id: Option<String>,
    /// When it was written, in nanoseconds.
    pub modified: Option<i128>,
}

/// What a [`RunFile`] stands for.
#[verifier::ext_equal]
pub struct RunFileView {
    pub extension: Option<Seq<char>>,
    pub stem: Option<Seq<char>>,
    pub readable: bool,
    pub workflow_id: Option<Seq<char>>,
    pub modified: Option<i128>,
}

impl View for RunFile {
    type V = RunFileView;

    open spec fn view(&self) -> RunFileView {
        RunFileView {
            extension: self.extension.deep_view(),
            stem: self.stem.deep_view(),
            readable: self.readable,
            workflow_id: self.workflow_id.deep_view(),
            modified: self.modified,
        }
    }
}

impl DeepView for RunFile {
    type V = RunFileView;

    open spec fn deep_view(&self) -> RunFileView {
        self@
    }
}

/// Whether a file holds a run of the workflow that is wanted, of any where none is.
pub open spec fn eligible(f: RunFileView, wanted: Option<Seq<char>>) -> bool {
    &&& f.extension == Some("json"@)
    &&& wanted is Some ==> f.readable && f.workflow_id == wanted
    &&& f.modified is Some
    &&& f.stem is Some
}

/// Whether file `p` is the last written of those before position `n`, the first of
/// these where several are.
pub open spec fn is_latest(files: Seq<RunFileView>, wanted: Option<Seq<char>>, p: int, n: int) -> bool {
    &&& 0 <= p < n <= files.len()
    &&& eligible(files[p], wanted)
    &&& forall|q: int|
        0 <= q < n && eligible(#[trigger] files[q], wanted) ==> if q < p {
            files[q].modified->0 < files[p].modified->0
        } else {
            files[q].modified->0 <= files[p].modified->0
        }
}

fn is_eligible(f: &RunFile, wanted: &Option<String>) -> (r: bool)
    ensures
        r == eligible(f@, wanted.deep_view()),
{
    let is_json = match &f.extension {
        None => false,
        Some(e) => str_eq(e.as_str(), "json"),
    };
    if !is_json {
        return false;
    }
    if let Some(w) = wanted {
        if !f.readable {
            return false;
        }
        let same = match &f.workflow_id {
            None => false,
            Some(id) => str_eq(id.as_str(), w.as_str()),
        };
        if !same {
            return false;
        }
    }
    f.modified.is_some() && f.stem.is_some()
}

/// The run whose state was written last.
pub fn find_latest_workflow_run_id(files: &Vec<RunFile>, workflow_id: &Option<String>) -> (r:
    Option<String>)
    ensures
        match r {
            None => forall|q: int|
                0 <= q < files@.len() ==> !eligible(
                    #[trigger] files.deep_view()[q],
                    workflow_id.deep_view(),
                ),
            Some(id) => exists|p: int|
                {
                    &&& is_latest(
                        files.deep_view(),
                        workflow_id.deep_view(),
                        p,
                        files@.len() as int,
                    )
                    &&& (#[trigger] files.deep_view()[p]).stem == Some(id@)
                },
        },
{
    let ghost all = files.deep_view();
    let ghost wanted = workflow_id.deep_view();
    let mut best: Option<usize> = None;
    let mut best_at: i128 = 0;
    let mut i: usize = 0;
    while i < files.len()
        invariant
            i <= files@.len(),
            all == files.deep_view(),
            wanted == workflow_id.deep_view(),
            match best {
                None => forall|q: int|
                    0 <= q < i ==> !eligible(#[trigger] all[q], wanted),
                Some(p) => is_latest(all, wanted, p as int, i as int) && all[p as int].modified
                    == Some(best_at),
            },
        decreases files.len() - i,
    {
        let f = &files[i];
        assert(all[i as int] == f@);
        if is_eligible(f, workflow_id) {
            if let Some(at) = f.modified {
                match best {
                    Some(_) => {
                        if at > best_at {
                            best = Some(i);
                            best_at = at;
                        }
                    },
                    None => {
                        best = Some(i);
                        best_at = at;
                    },
                }
            }
        }
        i = i + 1;
    }
    match best {
        None => None,
        Some(p) => {
            assert(all[p as int].stem is Some);
            assert(all[p as int] == files@[p as int]@);
            files[p].stem.clone()
        },
    }
}

/// The run that a command works on: the one named, the last one of the workflow, or a
/// new one.
pub open spec fn run_choice(
    run_id: Option<Seq<char>>,
    resume: bool,
    latest: Option<Seq<char>>,
    workflow_id: Seq<char>,
    now: u64,
) -> Result<Seq<char>, Seq<char>> {
    match run_id {
        Some(id) => Ok(safe_id(id)),
        None => if !resume {
            Ok(fresh_id(workflow_id, now))
        } else {
            match latest {
                Some(id) => Ok(id),
                None => Err("no previous run found for workflow id: "@ + workflow_id),
            }
        },
    }
}

pub fn choose_run_id(
    run_id: &Option<String>,
    resume: bool,
    latest: Option<String>,
    workflow_id: &str,
    now_secs: u64,
) -> (r: Result<String, String>)
    ensures
        outcome(r) == run_choice(
            run_id.deep_view(),
            resume,
            latest.deep_view(),
            workflow_id@,
            now_secs,
        ),
{
    match run_id {
        Some(id) => Ok(sanitize_run_id(id.as_str())),
        None => {
            if !resume {
                return Ok(generate_run_id(workflow_id, now_secs));
            }
            match latest {
                Some(id) => Ok(id),
                None => Err(cat2("no previous run found for workflow id: ", workflow_id)),
            }
        },
    }
}

/// The run that is looked at or cancelled: the one named, or the last one.
pub fn pick_run_id(run_id: &Option<String>, latest: Option<String>) -> (r: Result<String, String>)
    ensures
        outcome(r) == match run_id.deep_view() {
            Some(id) => Ok(safe_id(id)),
            None => match latest.deep_view() {
                Some(id) => Ok(id),
                None => Err("no workflow runs found"@),
            },
        },
{
    match run_id {
        Some(id) => Ok(sanitize_run_id(id.as_str())),
        None => match latest {
            Some(id) => Ok(id),
            None => Err("no workflow runs found".to_owned()),
        },
    }
}

/// A run that the user has cancelled.
pub open spec fn cancelled(s: WorkflowRunStateView) -> WorkflowRunStateView {
    WorkflowRunStateView {
        pending: None,
        status: WorkflowRunStatus::Failed,
        last_error: Some("cancelled by user"@),
        ..s
    }
}

pub fn cancel_run(state: &mut WorkflowRunState)
    ensures
        final(state)@ == cancelled(old(state)@),
{
    state.pending = None;
    state.status = WorkflowRunStatus::Failed;
    state.last_error = Some("cancelled by user".to_owned());
}

/// An optional text as its `Debug` form shows it.
pub open spec fn debug_option(o: Option<Seq<char>>) -> Seq<char> {
    match o {
        None => "None"@,
        Some(s) => "Some("@ + debug_text(s) + ")"@,
    }
}

fn debug_option_string(o: &Option<String>) -> (r: String)
    ensures
        r@ == debug_option(o.deep_view()),
{
    match o {
        None => "None".to_owned(),
        Some(s) => {
            let shown = debug_string(s.as_str());
            cat3("Some(", shown.as_str(), ")")
        },
    }
}

/// A run that says which workflow it belongs to.
pub open spec fn owned(s: WorkflowRunStateView, workflow_id: Seq<char>) -> WorkflowRunStateView {
    if s.workflow_id is None {
        WorkflowRunStateView { workflow_id: Some(workflow_id), ..s }
    } else {
        s
    }
}

/// The run to go on with: the one found, where it belongs to the workflow, or a new
/// one, unless an old one was asked for.
pub open spec fn run_opened(
    g: WorkflowGraphV1View,
    existing: Option<WorkflowRunStateView>,
    resume: bool,
    run_id: Seq<char>,
    workflow_id: Seq<char>,
    path: Seq<char>,
) -> Result<WorkflowRunStateView, Seq<char>> {
    if existing is None && resume {
        Err("resume requested but run state file does not exist: "@ + path)
    } else {
        let s = match existing {
            Some(s) => owned(s, workflow_id),
            None => owned(started(g, run_id), workflow_id),
        };
        if s.workflow_id == Some(workflow_id) {
            Ok(s)
        } else {
            Err(
                "run "@ + s.run_id + " belongs to workflow "@ + debug_option(s.workflow_id)
                    + ", not "@ + workflow_id,
            )
        }
    }
}

pub fn open_run(
    engine: &WorkflowEngine,
    existing: Option<WorkflowRunState>,
    resume: bool,
    run_id: &str,
    workflow_id: &str,
    state_path: &str,
) -> (r: Result<WorkflowRunState, String>)
    ensures
        outcome(r) == run_opened(
            engine.graph@,
            existing.deep_view(),
            resume,
            run_id@,
            workflow_id@,
            state_path@,
        ),
{
    let mut state = match existing {
        Some(s) => s,
        None => {
            if resume {
                return Err(
                    cat2("resume requested but run state file does not exist: ", state_path),
                );
            }
            engine.start(run_id)
        },
    };
    let ghost found = state@;
    if state.workflow_id.is_none() {
        state.workflow_id = Some(workflow_id.to_owned());
    }
    assert(state@ == owned(found, workflow_id@));
    let same = match &state.workflow_id {
        None => false,
        Some(id) => str_eq(id.as_str(), workflow_id),
    };
    if same {
        Ok(state)
    } else {
        let shown = debug_option_string(&state.workflow_id);
        let head = cat4("run ", state.run_id.as_str(), " belongs to workflow ", shown.as_str());
        Err(cat3(head.as_str(), ", not ", workflow_id))
    }
}

/// What a turn of the runner comes to.
pub enum RunnerTurn {
    /// The run has come to its end.
    Ended,
    /// There is nothing to do.
    Idle,
    /// The action is handed to whoever supervises the run.
    Emit(WorkflowAction),
    /// The run is complete.
    Completed,
    /// The action is to be performed, and its result taken.
    Perform(WorkflowAction),
}

/// What a [`RunnerTurn`] stands for.
#[verifier::ext_equal]
pub enum RunnerTurnView {
    Ended,
    Idle,
    Emit(WorkflowActionView),
    Completed,
    Perform(WorkflowActionView),
}

impl View for RunnerTurn {
    type V = RunnerTurnView;

    open spec fn view(&self) -> RunnerTurnView {
        match self {
            RunnerTurn::Ended => RunnerTurnView::Ended,
            RunnerTurn::Idle => RunnerTurnView::Idle,
            RunnerTurn::Emit(a) => RunnerTurnView::Emit(a@),
            RunnerTurn::Completed => RunnerTurnView::Completed,
            RunnerTurn::Perform(a) => RunnerTurnView::Perform(a@),
        }
    }
}

impl DeepView for RunnerTurn {
    type V = RunnerTurnView;

    open spec fn deep_view(&self) -> RunnerTurnView {
        self@
    }
}

/// What is done with the action of a turn.
pub open spec fn dispatched(a: WorkflowActionView, emit: bool) -> RunnerTurnView {
    if emit {
        RunnerTurnView::Emit(a)
    } else if a is Complete {
        RunnerTurnView::Completed
    } else {
        RunnerTurnView::Perform(a)
    }
}

/// A turn of the runner: the state after it, and what it comes to.
pub open spec fn turn(
    g: WorkflowGraphV1View,
    c: Components,
    s: WorkflowRunStateView,
    steps: u32,
    max_steps: u32,
    emit: bool,
) -> (WorkflowRunStateView, Result<RunnerTurnView, Seq<char>>) {
    if steps >= max_steps {
        (
            s,
            Err(
                "workflow runner exceeded max_steps="@ + decimal(max_steps as nat) + " (run_id="@
                    + s.run_id + ")"@,
            ),
        )
    } else if terminal(s) {
        (s, Ok(RunnerTurnView::Ended))
    } else if s.pending is Some {
        match pending_action(g, c, s) {
            Err(e) => (s, Err(workflow_error_text(e))),
            Ok(None) => (
                s,
                Err("run state indicates pending action, but action cannot be rebuilt"@),
            ),
            Ok(Some(a)) => (s, Ok(dispatched(a, emit))),
        }
    } else {
        let (t, r) = next(g, c, s);
        match r {
            Err(e) => (t, Err(workflow_error_text(e))),
            Ok(None) => (t, Ok(RunnerTurnView::Idle)),
            Ok(Some(a)) => (t, Ok(dispatched(a, emit))),
        }
    }
}

fn dispatch(a: WorkflowAction, emit: bool) -> (r: RunnerTurn)
    ensures
        r@ == dispatched(a@, emit),
{
    if emit {
        return RunnerTurn::Emit(a);
    }
    match a {
        WorkflowAction::Complete { .. } => RunnerTurn::Completed,
        other => RunnerTurn::Perform(other),
    }
}

/// Takes a turn of a run after `steps` of them.
pub fn runner_turn(
    engine: &WorkflowEngine,
    state: &mut WorkflowRunState,
    steps: u32,
    max_steps: u32,
    emit_actions: bool,
) -> (r: Result<RunnerTurn, String>)
    ensures
        (final(state)@, outcome(r)) == turn(
            engine.graph@,
            engine.components@,
            old(state)@,
            steps,
            max_steps,
            emit_actions,
        ),
{
    if steps >= max_steps {
        let n = decimal_string(max_steps as u64);
        let head = cat3("workflow runner exceeded max_steps=", n.as_str(), " (run_id=");
        return Err(cat3(head.as_str(), state.run_id.as_str(), ")"));
    }
    if state.is_terminal() {
        return Ok(RunnerTurn::Ended);
    }
    if state.pending.is_some() {
        return match engine.action_for_pending(state) {
            Err(e) => Err(e.message()),
            Ok(None) => Err(
                "run state indicates pending action, but action cannot be rebuilt".to_owned(),
            ),
            Ok(Some(a)) => Ok(dispatch(a, emit_actions)),
        };
    }
    match engine.next_action(state) {
        Err(e) => Err(e.message()),
        Ok(None) => Ok(RunnerTurn::Idle),
        Ok(Some(a)) => Ok(dispatch(a, emit_actions)),
    }
}

/// What came of performing an action.
pub enum WorkflowActionControl {
    Result(WorkflowActionResult),
    Cancelled,
}

/// What a [`WorkflowActionControl`] stands for.
#[verifier::ext_equal]
pub enum WorkflowActionControlView {
    Result(WorkflowActionResultView),
    Cancelled,
}

impl View for WorkflowActionControl {
    type V = WorkflowActionControlView;

    open spec fn view(&self) -> WorkflowActionControlView {
        match self {
            WorkflowActionControl::Result(a) => WorkflowActionControlView::Result(a@),
            WorkflowActionControl::Cancelled => WorkflowActionControlView::Cancelled,
        }
    }
}

impl DeepView for WorkflowActionControl {
    type V = WorkflowActionControlView;

    open spec fn deep_view(&self) -> WorkflowActionControlView {
        self@
    }
}

/// The state after what came of an action is taken, and what is to be written first.
pub open spec fn taken(
    g: WorkflowGraphV1View,
    c: Components,
    limit: u32,
    cfg: ArtifactStoreConfigView,
    now: TimestampView,
    s: WorkflowRunStateView,
    action: WorkflowActionView,
    control: WorkflowActionControlView,
) -> (WorkflowRunStateView, Result<Option<StoreWriteView>, WorkflowErrorView>) {
    match control {
        WorkflowActionControlView::Cancelled => (cancelled(s), Ok(None)),
        WorkflowActionControlView::Result(r) => applied(g, c, limit, cfg, now, s, action, r),
    }
}

/// Takes what came of an action.
pub fn take_control(
    engine: &WorkflowEngine,
    state: &mut WorkflowRunState,
    action: &WorkflowAction,
    control: WorkflowActionControl,
    artifact_store: &ArtifactStore,
    now: &Timestamp,
) -> (r: Result<Option<StoreWrite>, String>)
    requires
        control@ matches WorkflowActionControlView::Result(result) ==> countable(
            engine.graph@,
            engine.components@,
            artifact_store.cfg@,
            old(state)@,
            action@,
            result,
        ),
    ensures
        ({
            let (t, w) = taken(
                engine.graph@,
                engine.components@,
                engine.limits.default_max_revisions,
                artifact_store.cfg@,
                now@,
                old(state)@,
                action@,
                control@,
            );
            &&& final(state)@ == t
            &&& outcome(r) == match w {
                Ok(w) => Ok(w),
                Err(e) => Err(workflow_error_text(e)),
            }
        }),
{
    match control {
        WorkflowActionControl::Cancelled => {
            cancel_run(state);
            Ok(None)
        },
        WorkflowActionControl::Result(result) => {
            match engine.apply_action_result(state, action, result, artifact_store, now) {
                Ok(w) => Ok(w),
                Err(e) => Err(e.message()),
            }
        },
    }
}

/// The action that a result given from outside belongs to.
pub fn supervised_action(engine: &WorkflowEngine, state: &WorkflowRunState) -> (r: Result<
    WorkflowAction,
    String,
>)
    ensures
        outcome(r) == match pending_action(engine.graph@, engine.components@, state@) {
            Err(e) => Err(workflow_error_text(e)),
            Ok(None) => Err("--action-result-json provided but no pending action"@),
            Ok(Some(a)) => Ok(a),
        },
{
    match engine.action_for_pending(state) {
        Err(e) => Err(e.message()),
        Ok(None) => Err("--action-result-json provided but no pending action".to_owned()),
        Ok(Some(a)) => Ok(a),
    }
}

/// A run that was cancelled has come to its end, and no later turn changes it.
pub proof fn cancelled_run_stays(
    g: WorkflowGraphV1View,
    c: Components,
    s: WorkflowRunStateView,
    steps: u32,
    max_steps: u32,
    emit: bool,
)
    ensures
        terminal(cancelled(s)),
        turn(g, c, cancelled(s), steps, max_steps, emit).0 == cancelled(s),
        steps < max_steps ==> turn(g, c, cancelled(s), steps, max_steps, emit).1 == Ok::<
            RunnerTurnView,
            Seq<char>,
        >(RunnerTurnView::Ended),
{
}

/// A run that is interrupted while an action is performed asks for the same action
/// when it is taken up again, and has not changed.
pub proof fn interrupted_run_asks_again(
    g: WorkflowGraphV1View,
    c: Components,
    s: WorkflowRunStateView,
    steps: u32,
    max_steps: u32,
    a: WorkflowActionView,
)
    requires
        turn(g, c, s, steps, max_steps, false).1 == Ok::<RunnerTurnView, Seq<char>>(
            RunnerTurnView::Perform(a),
        ),
    ensures
        turn(g, c, turn(g, c, s, steps, max_steps, false).0, steps, max_steps, false) == turn(
            g,
            c,
            s,
            steps,
            max_steps,
            false,
        ),
{
}

} // verus!
