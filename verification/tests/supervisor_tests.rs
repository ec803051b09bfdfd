use companion_core::errors::ServiceError;
use companion_core::supervisor::{
    build_stop_plan, conclude_stop, EnsureDecision, Liveness, ProcessConfig, ShutdownStyle,
    SpawnOutcome, Status, StopAction, Supervisor,
};

fn config(program: &str) -> ProcessConfig {
    ProcessConfig {
        program: program.to_string(),
        args: vec!["--flag".to_string()],
    }
}

#[test]
fn configure_start_stop_start_stop_cycle() {
    let mut sup = Supervisor::new();
    sup.configure(config("worker"));

    assert!(sup.start_decide(Liveness::Exited).is_ok());
    assert!(sup.spawn_finish(SpawnOutcome::Spawned(11)).is_ok());
    assert_eq!(sup.status(Liveness::Alive), Status::Running);

    let pid = sup.stop_decide().expect("first stop");
    assert_eq!(pid, 11);
    assert_eq!(sup.status(Liveness::Exited), Status::Stopped);

    // the second start after a stop succeeds with the unchanged configuration
    assert!(sup.start_decide(Liveness::Exited).is_ok());
    assert!(sup.spawn_finish(SpawnOutcome::Spawned(12)).is_ok());
    assert_eq!(sup.status(Liveness::Alive), Status::Running);

    let pid = sup.stop_decide().expect("second stop");
    assert_eq!(pid, 12);
    assert_eq!(sup.status(Liveness::Exited), Status::Stopped);
}

#[test]
fn start_while_running_fails_and_spawns_nothing() {
    let mut sup = Supervisor::new();
    sup.configure(config("worker"));
    assert!(sup.start_decide(Liveness::Exited).is_ok());
    assert!(sup.spawn_finish(SpawnOutcome::Spawned(7)).is_ok());

    let r = sup.start_decide(Liveness::Alive);
    assert!(matches!(r, Err(ServiceError::AlreadyRunning)));
    // the rejected start demanded no spawn and the old process stays tracked
    assert_eq!(sup.status(Liveness::Alive), Status::Running);
    let pid = sup.stop_decide().expect("stop");
    assert_eq!(pid, 7);
}

#[test]
fn start_without_configuration_fails() {
    let mut sup = Supervisor::new();
    let r = sup.start_decide(Liveness::Exited);
    assert!(matches!(r, Err(ServiceError::NotConfigured)));
}

#[test]
fn spawn_failure_surfaces_os_text() {
    let mut sup = Supervisor::new();
    sup.configure(config("missing-binary"));
    assert!(sup.start_decide(Liveness::Exited).is_ok());
    let r = sup.spawn_finish(SpawnOutcome::Failed("no such file".to_string()));
    match r {
        Err(ServiceError::SpawnError(msg)) => assert_eq!(msg, "no such file"),
        other => panic!("expected a spawn error, got {:?}", other),
    }
    assert_eq!(sup.status(Liveness::Exited), Status::Stopped);
}

#[test]
fn stop_while_not_running_fails_and_is_idempotent() {
    let mut sup = Supervisor::new();
    sup.configure(config("worker"));
    assert!(matches!(sup.stop_decide(), Err(ServiceError::NotRunning)));
    // repeating produces the same error, no panic
    assert!(matches!(sup.stop_decide(), Err(ServiceError::NotRunning)));
    assert!(matches!(sup.stop_decide(), Err(ServiceError::NotRunning)));
}

#[test]
fn ensure_running_after_crash_spawns_exactly_one_replacement() {
    let mut sup = Supervisor::new();
    sup.configure(config("worker"));
    assert!(sup.start_decide(Liveness::Exited).is_ok());
    assert!(sup.spawn_finish(SpawnOutcome::Spawned(21)).is_ok());

    // the process dies out of band; the next ensure demands one spawn
    let d = sup.ensure_running_decide(Liveness::Exited).expect("ensure");
    assert_eq!(d, EnsureDecision::SpawnNeeded);
    assert!(sup.spawn_finish(SpawnOutcome::Spawned(22)).is_ok());
    assert_eq!(sup.status(Liveness::Alive), Status::Running);

    // while the replacement lives, ensure demands nothing further
    let d = sup.ensure_running_decide(Liveness::Alive).expect("ensure");
    assert_eq!(d, EnsureDecision::AlreadyLive);
}

#[test]
fn ensure_running_without_configuration_fails() {
    let mut sup = Supervisor::new();
    let r = sup.ensure_running_decide(Liveness::Exited);
    assert!(matches!(r, Err(ServiceError::NotConfigured)));
}

#[test]
fn status_never_reports_running_after_exit() {
    let mut sup = Supervisor::new();
    sup.configure(config("worker"));
    assert!(sup.start_decide(Liveness::Exited).is_ok());
    assert!(sup.spawn_finish(SpawnOutcome::Spawned(5)).is_ok());
    assert_eq!(sup.status(Liveness::Alive), Status::Running);
    // the process exited out of band and no stop was ever called
    assert_eq!(sup.status(Liveness::Exited), Status::Stopped);
    // the stale handle is gone: a later poll cannot resurrect it
    assert_eq!(sup.status(Liveness::Alive), Status::Stopped);
}

#[test]
fn graceful_stop_plan_is_bounded_and_ends_in_kill() {
    let style = ShutdownStyle::GracefulThenKill { grace_millis: 500 };
    let plan = build_stop_plan(style, 9, Some("bye".to_string()));
    assert_eq!(plan.len(), 3);
    match &plan[0] {
        StopAction::SendLine(l) => assert_eq!(l, "bye"),
        other => panic!("expected the farewell line, got {:?}", other),
    }
    assert!(matches!(plan[1], StopAction::SleepMillis(500)));
    assert!(matches!(plan[2], StopAction::Kill(9)));
}

#[test]
fn stop_plan_without_farewell_goes_straight_to_kill() {
    let style = ShutdownStyle::GracefulThenKill { grace_millis: 500 };
    let plan = build_stop_plan(style, 3, None);
    assert_eq!(plan.len(), 1);
    assert!(matches!(plan[0], StopAction::Kill(3)));

    let plan = build_stop_plan(ShutdownStyle::KillOnly, 4, Some("ignored".to_string()));
    assert_eq!(plan.len(), 1);
    assert!(matches!(plan[0], StopAction::Kill(4)));
}

#[test]
fn refused_kill_is_surfaced_after_the_state_was_cleared() {
    assert!(conclude_stop(None).is_ok());
    match conclude_stop(Some("operation not permitted".to_string())) {
        Err(ServiceError::TerminationFailed(msg)) => {
            assert_eq!(msg, "operation not permitted")
        }
        other => panic!("expected a termination failure, got {:?}", other),
    }
}
