use runtime_supervisor::spawn::Platform;
use runtime_supervisor::supervisor::{
    record_start, start_message, stop, stop_message, terminate, ProcessRegistry, StartError,
    StopOutcome,
};

#[test]
fn stop_returns_the_pid_that_start_registered() {
    let mut registry = ProcessRegistry::new();
    let started = record_start(&mut registry, "p1", Ok(4242));
    assert!(matches!(started, Ok(4242)));
    assert_eq!(registry.lookup("p1"), Some(4242));

    match stop(&mut registry, Platform::Linux, "p1") {
        StopOutcome::Stopped { pid, termination } => {
            assert_eq!(pid, 4242);
            assert_eq!(termination.program, "kill");
            assert_eq!(termination.args, vec!["-9".to_string(), "4242".to_string()]);
        }
        StopOutcome::NotRunning => panic!("p1 was started"),
    }
    assert!(matches!(stop(&mut registry, Platform::Linux, "p1"), StopOutcome::NotRunning));
    assert!(matches!(
        stop(&mut registry, Platform::Linux, "never-started"),
        StopOutcome::NotRunning
    ));
    assert_eq!(registry.len(), 0);
}

#[test]
fn failed_spawn_registers_nothing() {
    let mut registry = ProcessRegistry::new();
    let started = record_start(&mut registry, "p1", Err("permission denied".to_string()));
    match &started {
        Err(StartError::SpawnFailed { reason }) => assert_eq!(reason, "permission denied"),
        Ok(_) => panic!("the spawn failed"),
    }
    assert_eq!(registry.lookup("p1"), None);
    assert_eq!(registry.len(), 0);
    assert_eq!(start_message("p1", &started), "Failed to start p1: permission denied");
}

#[test]
fn later_start_overwrites_the_entry() {
    let mut registry = ProcessRegistry::new();
    assert_eq!(registry.register("job", 1), None);
    assert_eq!(registry.register("other", 2), None);
    assert_eq!(registry.register("job", 3), Some(1));
    assert_eq!(registry.len(), 2);
    assert_eq!(registry.lookup("job"), Some(3));
    assert_eq!(registry.lookup("other"), Some(2));
    assert_eq!(registry.take("job"), Some(3));
    assert_eq!(registry.take("job"), None);
    assert_eq!(registry.lookup("other"), Some(2));
    assert_eq!(registry.len(), 1);
}

#[test]
fn jobs_are_independent() {
    let mut registry = ProcessRegistry::new();
    registry.register("a", 10);
    registry.register("b", 20);
    registry.register("c", 30);
    assert_eq!(registry.take("b"), Some(20));
    assert_eq!(registry.lookup("a"), Some(10));
    assert_eq!(registry.lookup("c"), Some(30));
    assert_eq!(registry.lookup("b"), None);
    registry.clear();
    assert_eq!(registry.len(), 0);
    assert_eq!(registry.lookup("a"), None);
}

#[test]
fn termination_is_platform_specific() {
    let windows = terminate(Platform::Windows, 77);
    assert_eq!(windows.program, "taskkill");
    assert_eq!(
        windows.args,
        vec!["/PID".to_string(), "77".to_string(), "/T".to_string(), "/F".to_string()]
    );
    assert!(windows.hide_window);
    assert!(windows.env.is_empty());
    assert!(windows.working_dir.is_none());

    let mac = terminate(Platform::MacOs, 0);
    assert_eq!(mac.program, "kill");
    assert_eq!(mac.args, vec!["-9".to_string(), "0".to_string()]);
    assert!(!mac.hide_window);

    let linux = terminate(Platform::Linux, u32::MAX);
    assert_eq!(linux.args, vec!["-9".to_string(), "4294967295".to_string()]);
}

#[test]
fn status_lines() {
    assert_eq!(start_message("p1", &Ok(12)), "Started p1 (pid 12)");
    let stopped = StopOutcome::Stopped { pid: 12, termination: terminate(Platform::Linux, 12) };
    assert_eq!(stop_message("p1", &stopped), "Stopped p1 (pid 12)");
    assert_eq!(stop_message("p1", &StopOutcome::NotRunning), "p1 is not running");
}
