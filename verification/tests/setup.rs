use sidecar_shell::error::SetupError;
use sidecar_shell::invocation::SidecarInvocation;
use sidecar_shell::orchestrator::begin;
use sidecar_shell::orchestrator::dev_diagnostic;
use sidecar_shell::orchestrator::spawn_diagnostic;
use sidecar_shell::orchestrator::step;
use sidecar_shell::orchestrator::BuildMode;
use sidecar_shell::orchestrator::SetupAction;
use sidecar_shell::orchestrator::SetupEvent;
use sidecar_shell::orchestrator::SetupState;

const DATA_DIR: &str = "/home/user/.local/share/com.example.flaskapp";

/// Drives a release run to the Spawning state, returning it and the spawn
/// action, with the given outcome of the directory ensure.
fn release_run_to_spawn(already_existed: bool) -> (SetupState, SetupAction) {
    let (state, action) = begin(BuildMode::Release);
    assert!(matches!(state, SetupState::ResolvingPath));
    assert!(matches!(action, SetupAction::ResolveDataDir));

    let (state, action) = step(
        state,
        SetupEvent::PathResolved { path: DATA_DIR.to_string() },
    );
    match &action {
        SetupAction::EnsureDir { path } => assert_eq!(path, DATA_DIR),
        other => panic!("expected EnsureDir, got {:?}", other),
    }
    assert!(matches!(&state, SetupState::EnsuringDir { data_dir } if data_dir == DATA_DIR));

    step(state, SetupEvent::DirEnsured { already_existed })
}

#[test]
fn release_happy_path() {
    let (state, action) = release_run_to_spawn(false);
    assert!(matches!(&state, SetupState::Spawning { data_dir } if data_dir == DATA_DIR));
    match &action {
        SetupAction::SpawnSidecar { invocation } => {
            assert_eq!(invocation.binary, "flask-backend");
            assert_eq!(
                invocation.args,
                vec!["--data-dir", DATA_DIR, "--port", "5000"]
            );
        }
        other => panic!("expected SpawnSidecar, got {:?}", other),
    }

    let (state, action) = step(state, SetupEvent::SpawnSucceeded);
    assert!(matches!(&state, SetupState::Running { data_dir } if data_dir == DATA_DIR));
    match &action {
        SetupAction::EmitSpawnDiagnostic { data_dir } => assert_eq!(data_dir, DATA_DIR),
        other => panic!("expected EmitSpawnDiagnostic, got {:?}", other),
    }
    assert!(state.is_terminal());
}

#[test]
fn preexisting_directory_spawns_identically() {
    let (fresh_state, fresh_action) = release_run_to_spawn(false);
    let (reused_state, reused_action) = release_run_to_spawn(true);
    assert_eq!(fresh_state, reused_state);
    assert_eq!(fresh_action, reused_action);
    assert!(matches!(reused_action, SetupAction::SpawnSidecar { .. }));
}

#[test]
fn missing_bundled_binary_aborts() {
    let (state, _) = release_run_to_spawn(false);
    let (state, action) = step(state, SetupEvent::SpawnBinaryMissing);
    assert!(matches!(
        state,
        SetupState::Failed { error: SetupError::BinaryNotFound }
    ));
    assert!(state.is_terminal());
    match action {
        SetupAction::AbortStartup { error } => {
            assert_eq!(error, SetupError::BinaryNotFound);
            assert_eq!(error.message(), "bundled backend executable not found");
        }
        other => panic!("expected AbortStartup, got {:?}", other),
    }
}

#[test]
fn spawn_os_failure_aborts() {
    let (state, _) = release_run_to_spawn(false);
    let (state, action) = step(state, SetupEvent::SpawnOsFailure);
    assert!(matches!(
        state,
        SetupState::Failed { error: SetupError::SpawnFailed }
    ));
    assert!(matches!(
        action,
        SetupAction::AbortStartup { error: SetupError::SpawnFailed }
    ));
}

#[test]
fn unwritable_parent_aborts_before_spawn() {
    let (state, action) = begin(BuildMode::Release);
    assert!(matches!(action, SetupAction::ResolveDataDir));
    let (state, action) = step(
        state,
        SetupEvent::PathResolved { path: "/readonly/app".to_string() },
    );
    assert!(matches!(action, SetupAction::EnsureDir { .. }));
    let (state, action) = step(state, SetupEvent::DirCreateFailed);
    assert!(matches!(
        state,
        SetupState::Failed { error: SetupError::DirectoryCreateFailed }
    ));
    // The abort is the last word: no spawn was asked for at any step.
    match action {
        SetupAction::AbortStartup { error } => {
            assert_eq!(error.message(), "failed to create the app data directory");
        }
        other => panic!("expected AbortStartup, got {:?}", other),
    }
}

#[test]
fn path_unavailable_aborts() {
    let (state, _) = begin(BuildMode::Release);
    let (state, action) = step(state, SetupEvent::PathUnavailable);
    assert!(matches!(
        state,
        SetupState::Failed { error: SetupError::PathUnavailable }
    ));
    match action {
        SetupAction::AbortStartup { error } => {
            assert_eq!(
                error.message(),
                "failed to resolve the per-user app data directory"
            );
        }
        other => panic!("expected AbortStartup, got {:?}", other),
    }
}

#[test]
fn development_mode_is_pure() {
    let (state, action) = begin(BuildMode::Development);
    assert!(matches!(state, SetupState::DevDone));
    assert!(matches!(action, SetupAction::EmitDevDiagnostic));
    assert!(state.is_terminal());
    // A terminal state ignores any further event: nothing is ensured and
    // nothing is spawned in development mode.
    let (state, action) = step(state, SetupEvent::SpawnSucceeded);
    assert!(matches!(state, SetupState::DevDone));
    assert!(matches!(action, SetupAction::Idle));
}

#[test]
fn handle_retention_running_is_terminal() {
    let (state, _) = release_run_to_spawn(false);
    let (state, _) = step(state, SetupEvent::SpawnSucceeded);
    assert!(state.is_terminal());
    // Setup never issues another action from Running, so nothing it does
    // can release or terminate the retained child handle.
    let (state, action) = step(state, SetupEvent::DirCreateFailed);
    assert!(matches!(&state, SetupState::Running { data_dir } if data_dir == DATA_DIR));
    assert!(matches!(action, SetupAction::Idle));
}

#[test]
fn unexpected_event_is_ignored() {
    let (state, _) = begin(BuildMode::Release);
    let (state, action) = step(state, SetupEvent::SpawnSucceeded);
    assert!(matches!(state, SetupState::ResolvingPath));
    assert!(matches!(action, SetupAction::Idle));
}

#[test]
fn invocation_argument_fidelity() {
    let invocation = SidecarInvocation::new(&"/data/dir with space".to_string());
    assert_eq!(invocation.binary, "flask-backend");
    assert_eq!(invocation.args.len(), 4);
    assert_eq!(invocation.args[0], "--data-dir");
    assert_eq!(invocation.args[1], "/data/dir with space");
    assert_eq!(invocation.args[2], "--port");
    assert_eq!(invocation.args[3], "5000");
}

#[test]
fn diagnostics_text() {
    assert_eq!(
        dev_diagnostic(),
        "[shell] development mode: start the backend manually on port 5000"
    );
    assert_eq!(
        spawn_diagnostic(&"/srv/app-data".to_string()),
        "[shell] backend sidecar started with data-dir: /srv/app-data"
    );
}

#[test]
fn error_messages_identify_the_failing_step() {
    assert_eq!(
        SetupError::PathUnavailable.message(),
        "failed to resolve the per-user app data directory"
    );
    assert_eq!(
        SetupError::DirectoryCreateFailed.message(),
        "failed to create the app data directory"
    );
    assert_eq!(
        SetupError::BinaryNotFound.message(),
        "bundled backend executable not found"
    );
    assert_eq!(
        SetupError::SpawnFailed.message(),
        "failed to spawn the backend sidecar"
    );
}
