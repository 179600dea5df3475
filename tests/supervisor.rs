use aimatrx_desktop::error::{SidecarError, SpawnError};
use aimatrx_desktop::relay::{relay_step, EngineEvent, ExitStatus, LogLine};
use aimatrx_desktop::supervisor::{
    stop_outcome, SidecarState, SidecarStatus, StartAction, ENGINE_PORT, ENGINE_SIDECAR,
};

/// Stands in for an OS process handle: an id and whether it still lives.
#[derive(Debug, PartialEq)]
struct FakeChild {
    id: u32,
    alive: bool,
}

impl FakeChild {
    fn kill(self) -> Result<(), String> {
        if self.alive {
            Ok(())
        } else {
            Err(String::from("No such process"))
        }
    }
}

/// Runs one `start` command the way the host does, under exclusive access:
/// spawns through `spawn` only where the supervisor asks for it.
fn start(
    state: &mut SidecarState<FakeChild>,
    spawn: &mut dyn FnMut() -> Result<FakeChild, SpawnError>,
) -> Result<(), SidecarError> {
    match state.start_action() {
        StartAction::AlreadyRunning => Ok(()),
        StartAction::Spawn => state.record_launch(spawn()),
    }
}

/// Runs one `stop` command the way the host does.
fn stop(state: &mut SidecarState<FakeChild>) -> Result<(), SidecarError> {
    let killed = state.take_child().map(|child| child.kill());
    stop_outcome(killed)
}

#[test]
fn new_state_is_not_running() {
    let state: SidecarState<FakeChild> = SidecarState::new();
    assert!(!state.is_running());
    assert_eq!(state.status(), SidecarStatus { running: false, port: 22140 });
    assert_eq!(ENGINE_PORT, 22140);
    assert_eq!(ENGINE_SIDECAR, "aimatrx-engine");
}

#[test]
fn second_start_succeeds_without_spawning() {
    let mut state = SidecarState::new();
    let mut spawns = 0u32;
    let mut spawn = || {
        spawns += 1;
        Ok(FakeChild { id: spawns, alive: true })
    };
    assert!(start(&mut state, &mut spawn).is_ok());
    assert!(start(&mut state, &mut spawn).is_ok());
    assert_eq!(spawns, 1);
    assert_eq!(state.take_child(), Some(FakeChild { id: 1, alive: true }));
}

#[test]
fn stop_when_idle_is_a_no_op() {
    let mut state: SidecarState<FakeChild> = SidecarState::new();
    assert!(stop(&mut state).is_ok());
    assert!(!state.status().running);
}

#[test]
fn many_starts_spawn_one_process() {
    let mut state = SidecarState::new();
    let mut spawns = 0u32;
    let mut spawn = || {
        spawns += 1;
        Ok(FakeChild { id: spawns, alive: true })
    };
    for _ in 0..16 {
        assert!(start(&mut state, &mut spawn).is_ok());
    }
    assert_eq!(spawns, 1);
}

#[test]
fn failed_spawns_are_retried_until_one_succeeds() {
    let mut state = SidecarState::new();
    let mut tries = 0u32;
    let mut spawn = || {
        tries += 1;
        if tries < 3 {
            Err(SpawnError::SpawnRefused(String::from("resource exhausted")))
        } else {
            Ok(FakeChild { id: tries, alive: true })
        }
    };
    assert!(start(&mut state, &mut spawn).is_err());
    assert!(start(&mut state, &mut spawn).is_err());
    assert!(start(&mut state, &mut spawn).is_ok());
    assert!(start(&mut state, &mut spawn).is_ok());
    assert_eq!(tries, 3);
    assert_eq!(state.take_child(), Some(FakeChild { id: 3, alive: true }));
}

#[test]
fn stop_clears_state_after_a_successful_kill() {
    let mut state = SidecarState::new();
    assert!(state.record_launch(Ok(FakeChild { id: 1, alive: true })).is_ok());
    assert!(stop(&mut state).is_ok());
    assert!(!state.status().running);
}

#[test]
fn start_success_reports_running() {
    let mut state = SidecarState::new();
    assert!(state.record_launch(Ok(FakeChild { id: 9, alive: true })).is_ok());
    assert_eq!(state.status(), SidecarStatus { running: true, port: 22140 });
    assert_eq!(state.start_action(), StartAction::AlreadyRunning);
}

#[test]
fn start_with_invalid_executable_fails_and_stores_nothing() {
    let mut state: SidecarState<FakeChild> = SidecarState::new();
    let mut spawn = || {
        Err(SpawnError::CommandUnavailable(String::from(
            "no such file: /nonexistent/aimatrx-engine",
        )))
    };
    let r = start(&mut state, &mut spawn);
    match r {
        Err(SidecarError::SpawnFailure(SpawnError::CommandUnavailable(e))) => {
            assert_eq!(e, "no such file: /nonexistent/aimatrx-engine")
        }
        _ => panic!("expected a spawn failure"),
    }
    assert!(!state.status().running);
    assert_eq!(state.start_action(), StartAction::Spawn);
}

#[test]
fn self_terminated_process_counts_as_running_until_stop() {
    let mut state = SidecarState::new();
    assert!(state.record_launch(Ok(FakeChild { id: 1, alive: true })).is_ok());
    let exit = ExitStatus { code: Some(1), signal: None };
    let step = relay_step(EngineEvent::Terminated(exit));
    assert!(step.finished);
    match step.log {
        Some(LogLine::Exited(s)) => assert_eq!(s, exit),
        _ => panic!("expected the exit to be logged"),
    }
    assert!(state.status().running);
    assert!(stop(&mut state).is_ok());
    assert!(!state.status().running);
}

#[test]
fn stop_on_self_terminated_process_clears_state() {
    let mut state = SidecarState::new();
    assert!(state.record_launch(Ok(FakeChild { id: 1, alive: false })).is_ok());
    match stop(&mut state) {
        Err(SidecarError::KillFailure(e)) => assert_eq!(e, "No such process"),
        _ => panic!("expected a kill failure"),
    }
    assert!(!state.status().running);
    assert!(stop(&mut state).is_ok());
}

#[test]
fn stop_outcome_maps_each_kill_result() {
    assert!(stop_outcome(None).is_ok());
    assert!(stop_outcome(Some(Ok(()))).is_ok());
    assert!(matches!(
        stop_outcome(Some(Err(String::from("denied")))),
        Err(SidecarError::KillFailure(_))
    ));
}

#[test]
fn error_messages_name_the_failed_step() {
    let e = SidecarError::SpawnFailure(SpawnError::CommandUnavailable(String::from("x")));
    assert_eq!(e.message(), "Failed to create sidecar command: x");
    let e = SidecarError::SpawnFailure(SpawnError::SpawnRefused(String::from("denied")));
    assert_eq!(e.message(), "Failed to spawn sidecar: denied");
    let e = SidecarError::KillFailure(String::from("gone"));
    assert_eq!(e.message(), "Failed to kill sidecar: gone");
}
