use larrust::config::{IpAddress, PhpMyAdminConfig};
use larrust::error::LauncherError;
use larrust::server::{pid_file_text, read_pid_file, ProcessManager, StartPlan, TrackedProcess, PID_FILE};

fn tool_config() -> PhpMyAdminConfig {
    PhpMyAdminConfig {
        enabled: true,
        port: 8081,
        ip: IpAddress::V4(127, 0, 0, 1),
        path: "./tool".to_string(),
    }
}

#[test]
fn start_spawns_bound_server_and_records_pid() {
    let mut m: ProcessManager<&str> = ProcessManager::new();
    let plan = m.start_phpmyadmin(&tool_config(), true, true).unwrap();
    match plan {
        StartPlan::Spawn(req) => {
            assert_eq!(req.program, "php");
            assert_eq!(req.ip, IpAddress::V4(127, 0, 0, 1));
            assert_eq!(req.port, 8081);
            assert_eq!(req.root, "./tool");
        }
        StartPlan::AlreadyRunning => panic!("nothing was running"),
    }
    assert_eq!(pid_file_text(4242), "4242");
    assert_eq!(PID_FILE, "phpmyadmin.pid");
    assert!(m.record_spawn(TrackedProcess { handle: "child", pid: 4242 }, true).is_ok());
    assert!(m.is_running());
    assert_eq!(m.pid(), Some(4242));
}

#[test]
fn start_with_missing_root_fails_without_spawn() {
    let m: ProcessManager<&str> = ProcessManager::new();
    let r = m.start_phpmyadmin(&tool_config(), true, false);
    match r {
        Err(LauncherError::AdminToolPathInvalid { path }) => assert_eq!(path, "./tool"),
        _ => panic!("expected a path error"),
    }
    assert!(!m.is_running());
}

#[test]
fn start_without_interpreter_fails() {
    let m: ProcessManager<&str> = ProcessManager::new();
    let r = m.start_phpmyadmin(&tool_config(), false, true);
    assert!(matches!(r, Err(LauncherError::AdminToolPrerequisiteMissing)));
}

#[test]
fn second_start_is_a_no_op() {
    let mut m: ProcessManager<u8> = ProcessManager::new();
    assert!(m.record_spawn(TrackedProcess { handle: 1, pid: 77 }, true).is_ok());
    let r = m.start_phpmyadmin(&tool_config(), false, false);
    assert!(matches!(r, Ok(StartPlan::AlreadyRunning)));
    assert_eq!(m.pid(), Some(77));
}

#[test]
fn failed_pid_write_is_reported_and_not_held() {
    let mut m: ProcessManager<u8> = ProcessManager::new();
    let r = m.record_spawn(TrackedProcess { handle: 1, pid: 99 }, false);
    assert!(matches!(r, Err(LauncherError::PidFilePersistError { pid: 99 })));
    assert!(!m.is_running());
}

#[test]
fn stop_after_start_kills_both_ways_and_removes_file() {
    let mut m: ProcessManager<&str> = ProcessManager::new();
    m.start_phpmyadmin(&tool_config(), true, true).unwrap();
    m.record_spawn(TrackedProcess { handle: "child", pid: 5150 }, true).unwrap();
    let text = pid_file_text(5150);
    let plan = m.stop_phpmyadmin(true, Some(text.as_str()));
    assert_eq!(plan.handle, Some("child"));
    assert_eq!(plan.kill_pid, Some(5150));
    assert!(plan.remove_pid_file);
    assert!(!m.is_running());
}

#[test]
fn stop_recovers_from_stale_pid_file() {
    let mut m: ProcessManager<&str> = ProcessManager::new();
    let plan = m.stop_phpmyadmin(true, Some("31337\n"));
    assert_eq!(plan.handle, None);
    assert_eq!(plan.kill_pid, Some(31337));
    assert!(plan.remove_pid_file);
}

#[test]
fn stop_with_nothing_is_a_no_op() {
    let mut m: ProcessManager<&str> = ProcessManager::new();
    let plan = m.stop_phpmyadmin(false, None);
    assert_eq!(plan.handle, None);
    assert_eq!(plan.kill_pid, None);
    assert!(!plan.remove_pid_file);
}

#[test]
fn stop_with_garbled_pid_file_only_removes_it() {
    let mut m: ProcessManager<&str> = ProcessManager::new();
    let plan = m.stop_phpmyadmin(true, Some("not a pid"));
    assert_eq!(plan.kill_pid, None);
    assert!(plan.remove_pid_file);
}

#[test]
fn pid_file_text_reads_back() {
    for pid in [0u32, 7, 10, 12345, u32::MAX] {
        assert_eq!(read_pid_file(&pid_file_text(pid)), Some(pid));
    }
    assert_eq!(pid_file_text(u32::MAX), "4294967295");
}

#[test]
fn stop_removes_unreadable_pid_file() {
    let mut m: ProcessManager<&str> = ProcessManager::new();
    let plan = m.stop_phpmyadmin(true, None);
    assert_eq!(plan.kill_pid, None);
    assert!(plan.remove_pid_file);
}
