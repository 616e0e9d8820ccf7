use gitpush_bridge::lifecycle::LogEvent;
use gitpush_bridge::lifecycle::ShutdownPlan;
use gitpush_bridge::lifecycle::SpawnOutcome;
use gitpush_bridge::lifecycle::StartStep;
use gitpush_bridge::lifecycle::plan_start;
use gitpush_bridge::lifecycle::record_spawn;
use gitpush_bridge::lifecycle::shutdown;
use gitpush_bridge::lifecycle::shutdown_events;
use gitpush_bridge::location::AppPath;
use gitpush_bridge::location::resolve_backend;
use gitpush_bridge::slot::ProcessHandle;
use gitpush_bridge::slot::ProcessSlot;

fn path(parts: &[&str]) -> AppPath {
    AppPath { parts: parts.iter().map(|p| p.to_string()).collect() }
}

#[test]
fn fresh_slot_is_empty() {
    let slot = ProcessSlot::new();
    assert_eq!(slot.stored_pid(), None);
}

#[test]
fn store_then_take() {
    let mut slot = ProcessSlot::new();
    slot.store(ProcessHandle { pid: 5 });
    assert_eq!(slot.stored_pid(), Some(5));
    assert_eq!(slot.take(), Some(ProcessHandle { pid: 5 }));
    assert_eq!(slot.stored_pid(), None);
    assert_eq!(slot.take(), None);
}

#[test]
fn store_overwrites() {
    let mut slot = ProcessSlot::new();
    slot.store(ProcessHandle { pid: 5 });
    slot.store(ProcessHandle { pid: 6 });
    assert_eq!(slot.stored_pid(), Some(6));
}

#[test]
fn resolve_backend_on_unix() {
    let loc = resolve_backend(path(&["home", "dev", "gitpush", "bridge"]), false);
    assert_eq!(loc.interpreter, "python3");
    assert_eq!(loc.dir, path(&["home", "dev", "backend"]));
    assert_eq!(loc.entry, path(&["home", "dev", "backend", "main.py"]));
    assert_eq!(loc.cwd, path(&["home", "dev", "gitpush", "bridge"]));
}

#[test]
fn resolve_backend_on_windows() {
    let loc = resolve_backend(path(&["Users", "dev", "gitpush", "bridge"]), true);
    assert_eq!(loc.interpreter, "py");
    assert_eq!(loc.dir, path(&["Users", "dev", "backend"]));
    assert_eq!(loc.entry, path(&["Users", "dev", "backend", "main.py"]));
}

#[test]
fn resolve_backend_at_minimum_depth() {
    let loc = resolve_backend(path(&["srv", "app"]), false);
    assert_eq!(loc.dir, path(&["backend"]));
    assert_eq!(loc.entry, path(&["backend", "main.py"]));
}

#[test]
fn plan_start_launches_when_entry_exists() {
    let loc = resolve_backend(path(&["home", "dev", "gitpush", "bridge"]), false);
    let step = plan_start(loc, true);
    match step {
        StartStep::Launch { request } => {
            assert_eq!(request.interpreter, "python3");
            assert_eq!(request.entry, path(&["home", "dev", "backend", "main.py"]));
            assert_eq!(request.working_dir, path(&["home", "dev", "backend"]));
        }
        StartStep::Abort { .. } => panic!("expected a launch"),
    }
}

#[test]
fn plan_start_aborts_when_entry_missing() {
    let loc = resolve_backend(path(&["home", "dev", "gitpush", "bridge"]), false);
    let step = plan_start(loc, false);
    match step {
        StartStep::Abort { log } => {
            assert_eq!(
                log,
                LogEvent::BackendMissing {
                    entry: path(&["home", "dev", "backend", "main.py"]),
                    cwd: path(&["home", "dev", "gitpush", "bridge"]),
                }
            );
        }
        StartStep::Launch { .. } => panic!("expected an abort"),
    }
}

#[test]
fn successful_spawn_fills_the_slot() {
    let mut slot = ProcessSlot::new();
    let log = record_spawn(&mut slot, SpawnOutcome::Spawned { pid: 4242 });
    assert_eq!(log, LogEvent::Started { pid: 4242 });
    assert_eq!(slot.stored_pid(), Some(4242));
}

#[test]
fn failed_spawn_leaves_the_slot_empty() {
    let mut slot = ProcessSlot::new();
    let log = record_spawn(
        &mut slot,
        SpawnOutcome::Failed { message: "program not found".to_string() },
    );
    assert_eq!(log, LogEvent::StartFailed { message: "program not found".to_string() });
    assert_eq!(slot.stored_pid(), None);
}

#[test]
fn shutdown_stops_the_stored_process() {
    let mut slot = ProcessSlot::new();
    slot.store(ProcessHandle { pid: 4242 });
    let plan = shutdown(&mut slot);
    assert_eq!(plan, ShutdownPlan::Stop { handle: ProcessHandle { pid: 4242 } });
    assert_eq!(slot.stored_pid(), None);
    let logs = shutdown_events(&plan);
    assert_eq!(
        logs,
        vec![LogEvent::ShutdownInitiated { pid: 4242 }, LogEvent::ShutdownComplete]
    );
}

#[test]
fn shutdown_twice_is_a_no_op_the_second_time() {
    let mut slot = ProcessSlot::new();
    slot.store(ProcessHandle { pid: 4242 });
    let first = shutdown(&mut slot);
    assert!(matches!(first, ShutdownPlan::Stop { .. }));
    let second = shutdown(&mut slot);
    assert_eq!(second, ShutdownPlan::Idle);
    assert_eq!(slot.stored_pid(), None);
    assert_eq!(shutdown_events(&second), vec![]);
}

#[test]
fn shutdown_before_start_finds_an_empty_slot() {
    let mut slot = ProcessSlot::new();
    let plan = shutdown(&mut slot);
    assert_eq!(plan, ShutdownPlan::Idle);
    assert_eq!(slot.stored_pid(), None);
    assert_eq!(shutdown_events(&plan), vec![]);
}

#[test]
fn happy_path_start_and_shutdown_report_the_same_pid() {
    let mut slot = ProcessSlot::new();
    let loc = resolve_backend(path(&["home", "dev", "gitpush", "bridge"]), false);
    let step = plan_start(loc, true);
    let request = match step {
        StartStep::Launch { request } => request,
        StartStep::Abort { .. } => panic!("entry exists, so start must launch"),
    };
    assert_eq!(request.interpreter, "python3");

    let start_log = record_spawn(&mut slot, SpawnOutcome::Spawned { pid: 31337 });
    assert_eq!(start_log, LogEvent::Started { pid: 31337 });

    let plan = shutdown(&mut slot);
    let logs = shutdown_events(&plan);
    assert_eq!(
        logs,
        vec![LogEvent::ShutdownInitiated { pid: 31337 }, LogEvent::ShutdownComplete]
    );
    assert_eq!(slot.stored_pid(), None);
}

#[test]
fn missing_backend_leaves_nothing_to_stop() {
    let mut slot = ProcessSlot::new();
    let loc = resolve_backend(path(&["home", "dev", "gitpush", "bridge"]), false);
    let step = plan_start(loc, false);
    match step {
        StartStep::Abort { log } => match log {
            LogEvent::BackendMissing { entry, cwd } => {
                assert_eq!(entry, path(&["home", "dev", "backend", "main.py"]));
                assert_eq!(cwd, path(&["home", "dev", "gitpush", "bridge"]));
            }
            other => panic!("expected a missing-backend report, got {:?}", other),
        },
        StartStep::Launch { .. } => panic!("entry is missing, so start must abort"),
    }
    let plan = shutdown(&mut slot);
    assert_eq!(plan, ShutdownPlan::Idle);
    assert_eq!(shutdown_events(&plan), vec![]);
}
