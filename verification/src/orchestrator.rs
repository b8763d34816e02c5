//! The startup orchestrator.
//!
//! Setup runs once, synchronously, before the shell's UI opens. The
//! decisions are a state machine: [`begin`] picks the development or the
//! release branch from the build mode, and [`step`] takes the current state
//! and the outcome of the last outside action (an event) to the next state
//! and the next action. The host shell performs each action — resolve the
//! per-user data directory, create it, spawn the bundled backend — and
//! reports the outcome back as the next event.
//!
//! Release runs move `ResolvingPath → EnsuringDir → Spawning → Running`;
//! any failure moves to `Failed` and aborts startup. Development runs end
//! at once in `DevDone` with nothing but a diagnostic. `Running`, `DevDone`
//! and `Failed` are terminal: the orchestrator never issues another action
//! after them. An event that does not belong to the current phase changes
//! nothing and asks for nothing.

use vstd::prelude::*;

use crate::error::SetupError;
use crate::invocation::{InvocationModel, SidecarInvocation, invocation_for};

verus! {

/// Whether the shell was built for development or for release. The split is
/// a compile-time decision: switching modes requires a rebuild.
#[derive(Clone, Copy, Debug, PartialEq, Eq, Structural)]
pub enum BuildMode {
    Development,
    Release,
}

/// The phase the setup sequence is in.
#[derive(Debug, PartialEq)]
pub enum SetupState {
    /// Waiting for the host to resolve the per-user data directory.
    ResolvingPath,
    /// Waiting for the host to create `data_dir` (and missing ancestors).
    EnsuringDir { data_dir: String },
    /// Waiting for the host to spawn the bundled backend.
    Spawning { data_dir: String },
    /// Terminal success of a release run: the child is alive and its handle
    /// is retained by the shell for its whole lifetime.
    Running { data_dir: String },
    /// Terminal success of a development run: no directory was ensured and
    /// no child was spawned.
    DevDone,
    /// Terminal failure: startup aborts with a nonzero exit.
    Failed { error: SetupError },
}

/// The mathematical value of a [`SetupState`].
pub enum StateModel {
    ResolvingPath,
    EnsuringDir { data_dir: Seq<char> },
    Spawning { data_dir: Seq<char> },
    Running { data_dir: Seq<char> },
    DevDone,
    Failed { error: SetupError },
}

impl View for SetupState {
    type V = StateModel;

    open spec fn view(&self) -> StateModel {
        match self {
            SetupState::ResolvingPath => StateModel::ResolvingPath,
            SetupState::EnsuringDir { data_dir } => StateModel::EnsuringDir {
                data_dir: data_dir@,
            },
            SetupState::Spawning { data_dir } => StateModel::Spawning { data_dir: data_dir@ },
            SetupState::Running { data_dir } => StateModel::Running { data_dir: data_dir@ },
            SetupState::DevDone => StateModel::DevDone,
            SetupState::Failed { error } => StateModel::Failed { error: *error },
        }
    }
}

/// The outcome of an outside action, reported back by the host shell.
#[derive(Debug, PartialEq)]
pub enum SetupEvent {
    /// The host resolved the per-user data directory to `path`.
    PathResolved { path: String },
    /// The host provides no suitable data directory location.
    PathUnavailable,
    /// The data directory exists now; `already_existed` says whether it was
    /// already there. Pre-existence is not an error.
    DirEnsured { already_existed: bool },
    /// The filesystem refused to create the data directory.
    DirCreateFailed,
    /// The bundled backend was spawned and runs concurrently.
    SpawnSucceeded,
    /// The bundled backend executable is absent.
    SpawnBinaryMissing,
    /// The OS spawn call failed for another reason.
    SpawnOsFailure,
}

/// The mathematical value of a [`SetupEvent`].
pub enum EventModel {
    PathResolved { path: Seq<char> },
    PathUnavailable,
    DirEnsured { already_existed: bool },
    DirCreateFailed,
    SpawnSucceeded,
    SpawnBinaryMissing,
    SpawnOsFailure,
}

impl View for SetupEvent {
    type V = EventModel;

    open spec fn view(&self) -> EventModel {
        match self {
            SetupEvent::PathResolved { path } => EventModel::PathResolved { path: path@ },
            SetupEvent::PathUnavailable => EventModel::PathUnavailable,
            SetupEvent::DirEnsured { already_existed } => EventModel::DirEnsured {
                already_existed: *already_existed,
            },
            SetupEvent::DirCreateFailed => EventModel::DirCreateFailed,
            SetupEvent::SpawnSucceeded => EventModel::SpawnSucceeded,
            SetupEvent::SpawnBinaryMissing => EventModel::SpawnBinaryMissing,
            SetupEvent::SpawnOsFailure => EventModel::SpawnOsFailure,
        }
    }
}

/// What the host shell must do next.
#[derive(Debug, PartialEq)]
pub enum SetupAction {
    /// Print the development-mode reminder on the error stream.
    EmitDevDiagnostic,
    /// Resolve the per-user application data directory.
    ResolveDataDir,
    /// Create `path` and any missing ancestors; succeed if it exists.
    EnsureDir { path: String },
    /// Spawn the bundled backend as described and retain the child handle
    /// in storage that outlives setup.
    SpawnSidecar { invocation: SidecarInvocation },
    /// Print the success diagnostic recording the resolved data directory.
    EmitSpawnDiagnostic { data_dir: String },
    /// Abort shell startup with a nonzero exit and this error's diagnostic.
    AbortStartup { error: SetupError },
    /// Nothing: the event did not belong to the current phase.
    Idle,
}

/// The mathematical value of a [`SetupAction`].
pub enum ActionModel {
    EmitDevDiagnostic,
    ResolveDataDir,
    EnsureDir { path: Seq<char> },
    SpawnSidecar { invocation: InvocationModel },
    EmitSpawnDiagnostic { data_dir: Seq<char> },
    AbortStartup { error: SetupError },
    Idle,
}

impl View for SetupAction {
    type V = ActionModel;

    open spec fn view(&self) -> ActionModel {
        match self {
            SetupAction::EmitDevDiagnostic => ActionModel::EmitDevDiagnostic,
            SetupAction::ResolveDataDir => ActionModel::ResolveDataDir,
            SetupAction::EnsureDir { path } => ActionModel::EnsureDir { path: path@ },
            SetupAction::SpawnSidecar { invocation } => ActionModel::SpawnSidecar {
                invocation: invocation@,
            },
            SetupAction::EmitSpawnDiagnostic { data_dir } => ActionModel::EmitSpawnDiagnostic {
                data_dir: data_dir@,
            },
            SetupAction::AbortStartup { error } => ActionModel::AbortStartup { error: *error },
            SetupAction::Idle => ActionModel::Idle,
        }
    }
}

/// The transition out of the start of setup, fixed by the build mode.
pub open spec fn begin_transition(mode: BuildMode) -> (StateModel, ActionModel) {
    match mode {
        BuildMode::Development => (StateModel::DevDone, ActionModel::EmitDevDiagnostic),
        BuildMode::Release => (StateModel::ResolvingPath, ActionModel::ResolveDataDir),
    }
}

/// The events that belong to the current phase. Terminal states expect
/// none: a run of setup ends there.
pub open spec fn expects(s: StateModel, e: EventModel) -> bool {
    match s {
        StateModel::ResolvingPath => e is PathResolved || e is PathUnavailable,
        StateModel::EnsuringDir { .. } => e is DirEnsured || e is DirCreateFailed,
        StateModel::Spawning { .. } => e is SpawnSucceeded || e is SpawnBinaryMissing
            || e is SpawnOsFailure,
        StateModel::Running { .. } => false,
        StateModel::DevDone => false,
        StateModel::Failed { .. } => false,
    }
}

/// The transition relation of the orchestrator: from the current state and
/// the reported event to the next state and the next action. An event that
/// does not belong to the current phase changes nothing and asks for
/// nothing.
pub open spec fn next(s: StateModel, e: EventModel) -> (StateModel, ActionModel) {
    match (s, e) {
        (StateModel::ResolvingPath, EventModel::PathResolved { path }) => (
            StateModel::EnsuringDir { data_dir: path },
            ActionModel::EnsureDir { path },
        ),
        (StateModel::ResolvingPath, EventModel::PathUnavailable) => (
            StateModel::Failed { error: SetupError::PathUnavailable },
            ActionModel::AbortStartup { error: SetupError::PathUnavailable },
        ),
        (StateModel::EnsuringDir { data_dir }, EventModel::DirEnsured { .. }) => (
            StateModel::Spawning { data_dir },
            ActionModel::SpawnSidecar { invocation: invocation_for(data_dir) },
        ),
        (StateModel::EnsuringDir { .. }, EventModel::DirCreateFailed) => (
            StateModel::Failed { error: SetupError::DirectoryCreateFailed },
            ActionModel::AbortStartup { error: SetupError::DirectoryCreateFailed },
        ),
        (StateModel::Spawning { data_dir }, EventModel::SpawnSucceeded) => (
            StateModel::Running { data_dir },
            ActionModel::EmitSpawnDiagnostic { data_dir },
        ),
        (StateModel::Spawning { .. }, EventModel::SpawnBinaryMissing) => (
            StateModel::Failed { error: SetupError::BinaryNotFound },
            ActionModel::AbortStartup { error: SetupError::BinaryNotFound },
        ),
        (StateModel::Spawning { .. }, EventModel::SpawnOsFailure) => (
            StateModel::Failed { error: SetupError::SpawnFailed },
            ActionModel::AbortStartup { error: SetupError::SpawnFailed },
        ),
        (other, _) => (other, ActionModel::Idle),
    }
}

/// The states in which setup is over: no event is expected and no action
/// will ever be asked for again.
pub open spec fn terminal(s: StateModel) -> bool {
    match s {
        StateModel::Running { .. } => true,
        StateModel::DevDone => true,
        StateModel::Failed { .. } => true,
        _ => false,
    }
}

/// Starts setup: development runs end at once with the reminder
/// diagnostic; release runs ask the host to resolve the data directory.
pub fn begin(mode: BuildMode) -> (r: (SetupState, SetupAction))
    ensures
        (r.0@, r.1@) == begin_transition(mode),
{
    match mode {
        BuildMode::Development => (SetupState::DevDone, SetupAction::EmitDevDiagnostic),
        BuildMode::Release => (SetupState::ResolvingPath, SetupAction::ResolveDataDir),
    }
}

/// Advances setup by one reported outcome, exactly as the transition
/// relation [`next`] says.
pub fn step(state: SetupState, event: SetupEvent) -> (r: (SetupState, SetupAction))
    ensures
        (r.0@, r.1@) == next(state@, event@),
{
    match state {
        SetupState::ResolvingPath => match event {
            SetupEvent::PathResolved { path } => {
                let ensure_path = path.clone();
                (
                    SetupState::EnsuringDir { data_dir: path },
                    SetupAction::EnsureDir { path: ensure_path },
                )
            },
            SetupEvent::PathUnavailable => (
                SetupState::Failed { error: SetupError::PathUnavailable },
                SetupAction::AbortStartup { error: SetupError::PathUnavailable },
            ),
            _ => (SetupState::ResolvingPath, SetupAction::Idle),
        },
        SetupState::EnsuringDir { data_dir } => match event {
            SetupEvent::DirEnsured { .. } => {
                let invocation = SidecarInvocation::new(&data_dir);
                (
                    SetupState::Spawning { data_dir },
                    SetupAction::SpawnSidecar { invocation },
                )
            },
            SetupEvent::DirCreateFailed => (
                SetupState::Failed { error: SetupError::DirectoryCreateFailed },
                SetupAction::AbortStartup { error: SetupError::DirectoryCreateFailed },
            ),
            _ => (SetupState::EnsuringDir { data_dir }, SetupAction::Idle),
        },
        SetupState::Spawning { data_dir } => match event {
            SetupEvent::SpawnSucceeded => {
                let diagnosed_dir = data_dir.clone();
                (
                    SetupState::Running { data_dir },
                    SetupAction::EmitSpawnDiagnostic { data_dir: diagnosed_dir },
                )
            },
            SetupEvent::SpawnBinaryMissing => (
                SetupState::Failed { error: SetupError::BinaryNotFound },
                SetupAction::AbortStartup { error: SetupError::BinaryNotFound },
            ),
            SetupEvent::SpawnOsFailure => (
                SetupState::Failed { error: SetupError::SpawnFailed },
                SetupAction::AbortStartup { error: SetupError::SpawnFailed },
            ),
            _ => (SetupState::Spawning { data_dir }, SetupAction::Idle),
        },
        SetupState::Running { data_dir } => (
            SetupState::Running { data_dir },
            SetupAction::Idle,
        ),
        SetupState::DevDone => (SetupState::DevDone, SetupAction::Idle),
        SetupState::Failed { error } => (SetupState::Failed { error }, SetupAction::Idle),
    }
}

impl SetupState {
    /// Whether setup is over in this state.
    pub fn is_terminal(&self) -> (r: bool)
        ensures
            r == terminal(self@),
    {
        match self {
            SetupState::Running { .. } => true,
            SetupState::DevDone => true,
            SetupState::Failed { .. } => true,
            _ => false,
        }
    }
}

/// The state reached from `s` after the events `es`, one [`next`] step per
/// event.
pub open spec fn run_state(s: StateModel, es: Seq<EventModel>) -> StateModel
    decreases es.len(),
{
    if es.len() == 0 {
        s
    } else {
        run_state(next(s, es[0]).0, es.skip(1))
    }
}

/// The actions issued from `s` by the events `es`, in order.
pub open spec fn run_actions(s: StateModel, es: Seq<EventModel>) -> Seq<ActionModel>
    decreases es.len(),
{
    if es.len() == 0 {
        Seq::empty()
    } else {
        seq![next(s, es[0]).1] + run_actions(next(s, es[0]).0, es.skip(1))
    }
}

/// A run is valid when every event belongs to the phase it arrives in. The
/// host shell only ever reports the outcome of the one action it was asked
/// for, so its runs are valid.
pub open spec fn valid_run(s: StateModel, es: Seq<EventModel>) -> bool
    decreases es.len(),
{
    es.len() == 0 || (expects(s, es[0]) && valid_run(next(s, es[0]).0, es.skip(1)))
}

/// Law: a release run that ends in `Running` consists of exactly three
/// outcomes — a path was resolved, that directory was ensured, and only
/// then was the backend spawned — and the actions it issued were, in order:
/// ensure the resolved directory, spawn the bundled backend with the
/// argument vector built from that same directory, and record it in the
/// success diagnostic. In particular the directory is ensured strictly
/// before the spawn, and the child observes the path the resolver produced.
pub proof fn lemma_release_success_shape(es: Seq<EventModel>)
    requires
        valid_run(StateModel::ResolvingPath, es),
        run_state(StateModel::ResolvingPath, es) is Running,
    ensures
        es.len() == 3,
        es[0] is PathResolved,
        es[1] is DirEnsured,
        es[2] is SpawnSucceeded,
        run_state(StateModel::ResolvingPath, es) == (StateModel::Running {
            data_dir: es[0]->path,
        }),
        run_actions(StateModel::ResolvingPath, es) =~= seq![
            ActionModel::EnsureDir { path: es[0]->path },
            ActionModel::SpawnSidecar { invocation: invocation_for(es[0]->path) },
            ActionModel::EmitSpawnDiagnostic { data_dir: es[0]->path },
        ],
{
    let s0 = StateModel::ResolvingPath;
    assert(es.len() != 0);
    let e0 = es[0];
    let rest1 = es.skip(1);
    let s1 = next(s0, e0).0;
    assert(expects(s0, e0) && valid_run(s1, rest1));
    assert(run_state(s0, es) == run_state(s1, rest1));
    if e0 is PathUnavailable {
        if rest1.len() != 0 {
            assert(expects(s1, rest1[0]));
        }
        assert(run_state(s1, rest1) == s1);
        assert(false);
    }
    let dir = e0->path;
    assert(s1 == StateModel::EnsuringDir { data_dir: dir });
    assert(run_state(s1, rest1) is Running);
    assert(rest1.len() != 0);
    let e1 = rest1[0];
    let rest2 = rest1.skip(1);
    let s2 = next(s1, e1).0;
    assert(expects(s1, e1) && valid_run(s2, rest2));
    assert(run_state(s1, rest1) == run_state(s2, rest2));
    if e1 is DirCreateFailed {
        if rest2.len() != 0 {
            assert(expects(s2, rest2[0]));
        }
        assert(run_state(s2, rest2) == s2);
        assert(false);
    }
    assert(s2 == StateModel::Spawning { data_dir: dir });
    assert(run_state(s2, rest2) is Running);
    assert(rest2.len() != 0);
    let e2 = rest2[0];
    let rest3 = rest2.skip(1);
    let s3 = next(s2, e2).0;
    assert(expects(s2, e2) && valid_run(s3, rest3));
    assert(run_state(s2, rest2) == run_state(s3, rest3));
    if e2 is SpawnBinaryMissing || e2 is SpawnOsFailure {
        if rest3.len() != 0 {
            assert(expects(s3, rest3[0]));
        }
        assert(run_state(s3, rest3) == s3);
        assert(false);
    }
    assert(s3 == StateModel::Running { data_dir: dir });
    if rest3.len() != 0 {
        assert(expects(s3, rest3[0]));
    }
    assert(rest3.len() == 0);
    assert(es.len() == 3);
    assert(e1 == es[1]);
    assert(e2 == rest1[1] && rest1[1] == es[2]);
    assert(run_state(s3, rest3) == s3);
    assert(next(s0, e0).1 == ActionModel::EnsureDir { path: dir });
    assert(next(s1, e1).1 == ActionModel::SpawnSidecar { invocation: invocation_for(dir) });
    assert(next(s2, e2).1 == ActionModel::EmitSpawnDiagnostic { data_dir: dir });
    assert(run_actions(s3, rest3) =~= Seq::<ActionModel>::empty());
    assert(run_actions(s2, rest2) == seq![next(s2, e2).1] + run_actions(s3, rest3));
    assert(run_actions(s1, rest1) == seq![next(s1, e1).1] + run_actions(s2, rest2));
    assert(run_actions(s0, es) == seq![next(s0, e0).1] + run_actions(s1, rest1));
    assert(run_actions(StateModel::ResolvingPath, es) =~= seq![
        ActionModel::EnsureDir { path: dir },
        ActionModel::SpawnSidecar { invocation: invocation_for(dir) },
        ActionModel::EmitSpawnDiagnostic { data_dir: dir },
    ]);
}

/// Law: repeating setup finds the data directory already present, and the
/// orchestrator treats that exactly like a freshly created one — the
/// ensure outcome's `already_existed` flag changes neither the next state
/// nor the next action, from any state.
pub proof fn lemma_preexisting_dir_is_no_error(s: StateModel, a: bool, b: bool)
    ensures
        next(s, EventModel::DirEnsured { already_existed: a }) == next(
            s,
            EventModel::DirEnsured { already_existed: b },
        ),
{
}

/// Law: development runs are pure. Setup ends at once in `DevDone`, the
/// only action ever issued is the reminder diagnostic, and in particular
/// no directory is ensured and no process is spawned.
pub proof fn lemma_development_purity(es: Seq<EventModel>)
    requires
        valid_run(begin_transition(BuildMode::Development).0, es),
    ensures
        begin_transition(BuildMode::Development).0 is DevDone,
        begin_transition(BuildMode::Development).1 is EmitDevDiagnostic,
        es.len() == 0,
        run_actions(begin_transition(BuildMode::Development).0, es) =~= Seq::<
            ActionModel,
        >::empty(),
{
}

/// Law: `Running` is terminal. Once the backend is spawned, setup expects
/// no further event and issues no further action, so nothing the
/// orchestrator does can release or terminate the retained child handle.
pub proof fn lemma_running_retains_child(data_dir: Seq<char>, e: EventModel)
    ensures
        terminal(StateModel::Running { data_dir }),
        !expects(StateModel::Running { data_dir }, e),
        next(StateModel::Running { data_dir }, e) == (
            StateModel::Running { data_dir },
            ActionModel::Idle,
        ),
{
}

/// The development-mode reminder printed on the shell's error stream.
pub open spec fn dev_diagnostic_text() -> Seq<char> {
    "[shell] development mode: start the backend manually on port 5000"@
}

/// The development-mode reminder, as the host shell prints it.
pub fn dev_diagnostic() -> (r: String)
    ensures
        r@ == dev_diagnostic_text(),
{
    String::from_str("[shell] development mode: start the backend manually on port 5000")
}

/// The success diagnostic recording the resolved data directory.
pub open spec fn spawn_diagnostic_text(data_dir: Seq<char>) -> Seq<char> {
    "[shell] backend sidecar started with data-dir: "@ + data_dir
}

/// The success diagnostic for `data_dir`, as the host shell prints it.
pub fn spawn_diagnostic(data_dir: &String) -> (r: String)
    ensures
        r@ == spawn_diagnostic_text(data_dir@),
{
    String::from_str("[shell] backend sidecar started with data-dir: ").concat(data_dir.as_str())
}

} // verus!
