use wecom_multi_open::orchestrator::{
    IsolationMode, LaunchOutcome, SpawnRequest, SpawnRun, SpawnSetupError, resolve_executable,
};
use wecom_multi_open::registry::ProcessManager;

fn request(count: u8, app_path: Option<String>) -> SpawnRequest {
    SpawnRequest {
        count,
        app_path,
        isolation_mode: IsolationMode::Simple,
        instance_configs: None,
    }
}

#[test]
fn accounting_adds_up_for_mixed_outcomes() {
    let mut run = SpawnRun::begin(&request(4, None), true).unwrap();
    run.record(LaunchOutcome::Launched(100));
    run.record(LaunchOutcome::Failed);
    run.record(LaunchOutcome::Launched(200));
    run.record(LaunchOutcome::Failed);
    let response = run.finish();
    assert_eq!(response.success + response.failed, 4);
    assert_eq!(response.success, 2);
    assert_eq!(response.failed, 2);
    assert_eq!(response.pids, vec![100, 200]);
    assert_eq!(response.pids.len(), response.success);
}

#[test]
fn accounting_holds_when_every_instance_fails() {
    let mut run = SpawnRun::begin(&request(3, None), true).unwrap();
    run.record(LaunchOutcome::Failed);
    run.record(LaunchOutcome::Failed);
    run.record(LaunchOutcome::Failed);
    let response = run.finish();
    assert_eq!(response.success, 0);
    assert_eq!(response.failed, 3);
    assert!(response.pids.is_empty());
}

#[test]
fn three_successful_launches_fill_the_registry() {
    let mut registry = ProcessManager::new();
    let mut run = SpawnRun::begin(&request(3, None), true).unwrap();
    for pid in [501, 502, 503] {
        run.record(LaunchOutcome::Launched(pid));
        registry.add_process(pid);
    }
    let response = run.finish();
    assert_eq!(response.pids, vec![501, 502, 503]);
    assert_eq!(response.success, 3);
    assert_eq!(response.failed, 0);
    let managed: Vec<u32> = registry.list_processes().iter().map(|p| p.pid).collect();
    assert_eq!(managed, vec![501, 502, 503]);
}

#[test]
fn missing_executable_fails_fast_with_nothing_launched() {
    let run = SpawnRun::begin(&request(2, Some("C:\\NoSuchDir\\WXWork.exe".to_string())), false);
    let err = match run {
        Err(e) => e,
        Ok(_) => panic!("a missing executable must reject the request"),
    };
    assert_eq!(err, SpawnSetupError::MissingExecutable);
    assert_eq!(err.message(), "应用程序不存在");
}

#[test]
fn zero_count_is_rejected_before_anything_runs() {
    let err = match SpawnRun::begin(&request(0, None), true) {
        Err(e) => e,
        Ok(_) => panic!("a zero count must reject the request"),
    };
    assert_eq!(err, SpawnSetupError::ZeroCount);
    assert_eq!(err.message(), "实例数量必须大于 0");
}

#[test]
fn settle_is_skipped_after_the_last_instance() {
    let mut run = SpawnRun::begin(&request(2, None), true).unwrap();
    assert!(run.release_failure_benign());
    assert!(!run.complete());
    run.record(LaunchOutcome::Launched(7));
    assert!(run.needs_settle());
    assert!(!run.release_failure_benign());
    run.record(LaunchOutcome::Failed);
    assert!(!run.needs_settle());
    assert!(run.complete());
}

#[test]
fn explicit_path_wins_over_the_default() {
    let req = request(1, Some("D:\\Apps\\WXWork.exe".to_string()));
    let exe = resolve_executable(&req, "C:\\Default\\WXWork.exe".to_string());
    assert_eq!(exe, "D:\\Apps\\WXWork.exe");
    let req = request(1, None);
    let exe = resolve_executable(&req, "C:\\Default\\WXWork.exe".to_string());
    assert_eq!(exe, "C:\\Default\\WXWork.exe");
}
