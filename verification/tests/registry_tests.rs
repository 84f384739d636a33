use wecom_multi_open::registry::{ProcessEntry, ProcessManager, filter_processes_by_name};

fn pids_of(registry: &ProcessManager) -> Vec<u32> {
    registry.list_processes().iter().map(|p| p.pid).collect()
}

#[test]
fn add_list_and_remove() {
    let mut registry = ProcessManager::new();
    registry.add_process(10);
    registry.add_process(20);
    registry.add_process(30);
    assert_eq!(pids_of(&registry), vec![10, 20, 30]);

    registry.remove_process(20);
    assert_eq!(pids_of(&registry), vec![10, 30]);

    registry.remove_process(99); // absent: no effect
    assert_eq!(pids_of(&registry), vec![10, 30]);
}

#[test]
fn re_adding_a_pid_keeps_it_single() {
    let mut registry = ProcessManager::new();
    registry.add_process(10);
    registry.add_process(20);
    registry.add_process(10);
    assert_eq!(pids_of(&registry), vec![10, 20]);
}

#[test]
fn timestamps_look_like_wall_clock_text() {
    let mut registry = ProcessManager::new();
    registry.add_process(44);
    let records = registry.list_processes();
    assert_eq!(records.len(), 1);
    assert_eq!(records[0].pid, 44);
    // "%Y-%m-%d %H:%M:%S" renders at least 19 characters
    assert!(records[0].started_at.len() >= 19);
}

#[test]
fn kill_all_empties_the_registry_even_when_terminations_failed() {
    let mut registry = ProcessManager::new();
    registry.add_process(1);
    registry.add_process(2);
    registry.add_process(3);
    let killed = registry.kill_all(&vec![true, false, true]);
    assert_eq!(killed, 2);
    assert!(registry.list_processes().is_empty());
}

#[test]
fn clear_empties_the_registry() {
    let mut registry = ProcessManager::new();
    registry.add_process(5);
    registry.clear();
    assert!(registry.list_processes().is_empty());
}

#[test]
fn pruning_twice_with_one_liveness_picture_is_idempotent() {
    let mut registry = ProcessManager::new();
    for pid in [11, 12, 13, 14] {
        registry.add_process(pid);
    }
    let live = vec![12, 14, 99];
    registry.retain_live(&live);
    let first = pids_of(&registry);
    assert_eq!(first, vec![12, 14]);
    registry.retain_live(&live);
    let second = pids_of(&registry);
    assert_eq!(first, second);
    // nothing the probe reported dead stays managed
    assert!(second.iter().all(|pid| live.contains(pid)));
}

#[test]
fn filter_keeps_only_matching_executables() {
    let entries = vec![
        ProcessEntry { pid: 4, exe_path: "C:\\Windows\\explorer.exe".to_string() },
        ProcessEntry { pid: 8, exe_path: "C:\\Program Files (x86)\\WXWork\\WXWork.exe".to_string() },
        ProcessEntry { pid: 15, exe_path: "C:\\PROGRAM FILES\\WXWORK\\WXWORK.EXE".to_string() },
        ProcessEntry { pid: 16, exe_path: "C:\\Tools\\work.exe".to_string() },
    ];
    let pids = filter_processes_by_name(entries, "wxwork.exe");
    assert_eq!(pids, vec![8, 15]);
}
