use deploy_helper::{
    Action, BatchStep, CommandBatch, CommandOutcome, Config, EnvironmentFacts, FailureKind,
    Phase, Run, ServiceRequest, UnitKind, Update, UpdateCycle, UpdateError,
};

fn config(update: &[&str]) -> Config {
    Config {
        program_name: "demo".to_string(),
        program_path: "/opt/demo/bin/demo".to_string(),
        update: Update { interval: 60, commands: update.iter().map(|c| c.to_string()).collect() },
        run: Run { commands: vec!["true".to_string()] },
    }
}

fn env() -> EnvironmentFacts {
    EnvironmentFacts {
        executable: "/usr/local/bin/deploy-helper".to_string(),
        working_dir: "/opt/demo".to_string(),
        config_path: "/opt/demo/deploy.yaml".to_string(),
    }
}

/// Runs the batch with the given outcomes and returns the positions started.
fn drive_batch(commands: &[&str], outcomes: &[CommandOutcome]) -> (Vec<usize>, BatchStep) {
    let mut b = CommandBatch::new(commands.iter().map(|c| c.to_string()).collect());
    let mut started = Vec::new();
    let mut k = 0;
    loop {
        match b.next_step() {
            BatchStep::Execute { index, command } => {
                assert_eq!(command, commands[index]);
                started.push(index);
                b.record(outcomes[k]);
                k += 1;
            }
            other => return (started, other),
        }
    }
}

#[test]
fn batch_stops_at_first_failure() {
    let ok = CommandOutcome::Exited(0);
    let (started, end) = drive_batch(&["a", "b", "c", "d"], &[ok, CommandOutcome::Exited(2), ok, ok]);
    assert_eq!(started, vec![0, 1]);
    match end {
        BatchStep::Stopped(e) => {
            assert_eq!(e.index, 1);
            assert_eq!(e.command, "b");
            assert_eq!(e.kind, FailureKind::ExitStatus(2));
        }
        _ => panic!("batch should stop"),
    }
}

#[test]
fn batch_runs_all_on_success() {
    let ok = CommandOutcome::Exited(0);
    let (started, end) = drive_batch(&["a", "b", "c"], &[ok, ok, ok]);
    assert_eq!(started, vec![0, 1, 2]);
    assert!(matches!(end, BatchStep::Completed));
    let (none, end) = drive_batch(&[], &[]);
    assert!(none.is_empty());
    assert!(matches!(end, BatchStep::Completed));
}

#[test]
fn batch_failure_kinds() {
    let (_, end) = drive_batch(&["x"], &[CommandOutcome::Signalled]);
    assert!(matches!(end, BatchStep::Stopped(e) if e.kind == FailureKind::Signalled));
    let (_, end) = drive_batch(&["x"], &[CommandOutcome::SpawnFailed]);
    assert!(matches!(end, BatchStep::Stopped(e) if e.kind == FailureKind::Spawn));
}

/// Brings a cycle through the lock and the update commands, all succeeding.
fn through_update(c: &mut UpdateCycle, before: &[u8], after: &[u8], n_commands: usize) -> Action {
    assert!(matches!(c.start(), Action::AcquireLock));
    assert!(matches!(c.lock_result(true), Action::ReadWatched));
    let mut a = c.watched_read(before);
    for _ in 0..n_commands {
        assert!(matches!(a, Action::RunCommand(_)));
        a = c.command_done(CommandOutcome::Exited(0));
    }
    assert!(matches!(a, Action::ReadWatched));
    c.watched_read(after)
}

#[test]
fn first_install_end_to_end() {
    let mut c = UpdateCycle::new(config(&["true"]), env());
    let mut a = through_update(&mut c, b"binary", b"binary", 1);
    let mut written = Vec::new();
    let mut requests = Vec::new();
    loop {
        a = match a {
            Action::ReadUnit(_) => c.unit_read(None),
            Action::WriteUnit(k, text) => {
                written.push((k, text));
                c.unit_written()
            }
            Action::Request(q) => {
                requests.push(q);
                c.request_done(true)
            }
            Action::Finish { release_lock, error } => {
                assert!(release_lock);
                assert!(error.is_none());
                break;
            }
            _ => panic!("unexpected action"),
        };
    }
    assert_eq!(written.len(), 3);
    assert_eq!(written[0].0, UnitKind::UpdateService);
    assert_eq!(written[1].0, UnitKind::UpdateTimer);
    assert_eq!(written[2].0, UnitKind::RunService);
    assert!(written[1].1.contains("OnUnitActiveSec=60\n"));
    assert_eq!(
        requests,
        vec![
            ServiceRequest::Reload,
            ServiceRequest::EnableNow(UnitKind::UpdateTimer),
            ServiceRequest::EnableNow(UnitKind::RunService),
        ]
    );
    assert_eq!(c.current_phase(), Phase::Done);
    assert!(!c.holds_lock());
    assert!(!c.binary_changed());
}

#[test]
fn failing_update_command_end_to_end() {
    let mut c = UpdateCycle::new(config(&["false", "true"]), env());
    assert!(matches!(c.start(), Action::AcquireLock));
    assert!(matches!(c.lock_result(true), Action::ReadWatched));
    assert!(c.holds_lock());
    match c.watched_read(b"binary") {
        Action::RunCommand(cmd) => assert_eq!(cmd, "false"),
        _ => panic!("expected the first command"),
    }
    match c.command_done(CommandOutcome::Exited(1)) {
        Action::Finish { release_lock, error: Some(UpdateError::Command(e)) } => {
            assert!(release_lock);
            assert_eq!(e.index, 0);
            assert_eq!(e.command, "false");
            assert_eq!(e.kind, FailureKind::ExitStatus(1));
        }
        _ => panic!("expected the cycle to stop"),
    }
    assert_eq!(c.current_phase(), Phase::Failed);
    assert_eq!(c.failed_phase(), Some(Phase::Updating));
    assert!(!c.holds_lock());
}

#[test]
fn busy_lock_fails_at_once() {
    let mut c = UpdateCycle::new(config(&["true"]), env());
    c.start();
    match c.lock_result(false) {
        Action::Finish { release_lock, error } => {
            assert!(!release_lock);
            assert!(matches!(error, Some(UpdateError::ConcurrentUpdate)));
        }
        _ => panic!("expected the cycle to stop"),
    }
    assert_eq!(c.failed_phase(), Some(Phase::LockAcquiring));
    assert!(!c.holds_lock());
}

/// Drives the install and activation of a cycle whose unit files already
/// hold the rendered texts; returns the service requests.
fn settle_installed(c: &mut UpdateCycle, mut a: Action) -> Vec<ServiceRequest> {
    let units = deploy_helper::generate_units(&config(&["true"]), &env());
    let mut requests = Vec::new();
    loop {
        a = match a {
            Action::ReadUnit(k) => {
                let text = match k {
                    UnitKind::UpdateService => &units.update_service,
                    UnitKind::UpdateTimer => &units.update_timer,
                    UnitKind::RunService => &units.run_service,
                };
                c.unit_read(Some(text.as_bytes().to_vec()))
            }
            Action::Request(q) => {
                requests.push(q);
                c.request_done(true)
            }
            Action::Finish { release_lock, error } => {
                assert!(release_lock);
                assert!(error.is_none());
                return requests;
            }
            _ => panic!("nothing should be written"),
        };
    }
}

#[test]
fn unchanged_binary_is_not_restarted() {
    let mut c = UpdateCycle::new(config(&["true"]), env());
    let a = through_update(&mut c, b"binary", b"binary", 1);
    let requests = settle_installed(&mut c, a);
    assert_eq!(requests, vec![ServiceRequest::EnableNow(UnitKind::UpdateTimer)]);
}

#[test]
fn changed_binary_is_restarted_once() {
    let mut c = UpdateCycle::new(config(&["true"]), env());
    let a = through_update(&mut c, b"binary v1", b"binary v2", 1);
    assert!(c.binary_changed());
    let requests = settle_installed(&mut c, a);
    assert_eq!(
        requests,
        vec![
            ServiceRequest::EnableNow(UnitKind::UpdateTimer),
            ServiceRequest::Restart(UnitKind::RunService),
        ]
    );
}

#[test]
fn service_manager_failure_releases_lock() {
    let mut c = UpdateCycle::new(config(&["true"]), env());
    let mut a = through_update(&mut c, b"b", b"b", 1);
    loop {
        a = match a {
            Action::ReadUnit(_) => c.unit_read(None),
            Action::WriteUnit(_, _) => c.unit_written(),
            Action::Request(q) => {
                assert_eq!(q, ServiceRequest::Reload);
                c.request_done(false)
            }
            Action::Finish { release_lock, error } => {
                assert!(release_lock);
                assert!(matches!(error, Some(UpdateError::ServiceManager(ServiceRequest::Reload))));
                break;
            }
            _ => panic!("unexpected action"),
        };
    }
    assert_eq!(c.failed_phase(), Some(Phase::Activating));
    assert!(!c.holds_lock());
}

#[test]
fn io_failure_releases_lock() {
    let mut c = UpdateCycle::new(config(&[]), env());
    c.start();
    c.lock_result(true);
    match c.io_failed() {
        Action::Finish { release_lock, error } => {
            assert!(release_lock);
            assert!(matches!(error, Some(UpdateError::Io(Phase::Updating))));
        }
        _ => panic!("expected the cycle to stop"),
    }
    assert_eq!(c.failed_phase(), Some(Phase::Updating));
    assert!(!c.holds_lock());
}

#[test]
fn no_commands_goes_straight_to_detection() {
    let mut c = UpdateCycle::new(config(&[]), env());
    c.start();
    c.lock_result(true);
    assert!(matches!(c.watched_read(b"x"), Action::ReadWatched));
    assert!(matches!(c.watched_read(b"x"), Action::ReadUnit(UnitKind::UpdateService)));
    assert_eq!(c.current_phase(), Phase::Installing);
}
