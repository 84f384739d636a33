use wecom_multi_open::scanner::{
    HandleRecord, ProbeOutcome, ScanError, is_candidate, name_matches, release_outcome,
    tally_probes, wecom_mutex_name,
};

fn record(owner_pid: u32, object_type_index: u16) -> HandleRecord {
    HandleRecord { owner_pid, handle_value: 0x1c4, object_type_index, access_mask: 0x1f0001 }
}

#[test]
fn candidates_exclude_own_process_and_foreign_types() {
    let self_pid = 999;
    assert!(is_candidate(&record(100, 17), self_pid));
    assert!(is_candidate(&record(100, 15), self_pid));
    assert!(is_candidate(&record(100, 25), self_pid));
    assert!(!is_candidate(&record(999, 17), self_pid)); // our own handle
    assert!(!is_candidate(&record(100, 14), self_pid)); // below the range
    assert!(!is_candidate(&record(100, 26), self_pid)); // above the range
}

#[test]
fn matching_is_case_insensitive_containment() {
    let fragment = wecom_mutex_name();
    assert_eq!(fragment, "Tencent.WeWork.Exclusive");
    assert!(name_matches(
        "\\Sessions\\1\\BaseNamedObjects\\Tencent.WeWork.ExclusiveObject",
        fragment
    ));
    assert!(name_matches("tencent.wework.exclusiveobject", fragment));
    assert!(name_matches("TENCENT.WEWORK.EXCLUSIVE", fragment));
    assert!(!name_matches("Tencent.WeChat.ExclusiveObject", fragment));
    assert!(!name_matches("", fragment));
    assert!(name_matches("anything", ""));
}

#[test]
fn scan_success_without_matches_is_not_found_not_scan_failed() {
    let outcomes = vec![
        ProbeOutcome::AccessDenied,
        ProbeOutcome::Unresolved,
        ProbeOutcome::NoMatch,
        ProbeOutcome::NoMatch,
    ];
    let result = release_outcome(true, &outcomes);
    assert_eq!(result.unwrap_err(), ScanError::NotFound);
}

#[test]
fn failed_table_query_is_scan_failed() {
    let result = release_outcome(false, &vec![]);
    assert_eq!(result.unwrap_err(), ScanError::ScanFailed);

    // even outcomes that closed something cannot rescue a failed scan
    let result = release_outcome(false, &vec![ProbeOutcome::Closed]);
    assert_eq!(result.unwrap_err(), ScanError::ScanFailed);
}

#[test]
fn one_closed_handle_makes_the_release_succeed() {
    let outcomes = vec![
        ProbeOutcome::NoMatch,
        ProbeOutcome::CloseFailed,
        ProbeOutcome::Closed,
        ProbeOutcome::Unresolved,
    ];
    let stats = release_outcome(true, &outcomes).unwrap();
    assert_eq!(stats.candidates, 4);
    assert_eq!(stats.resolved, 3);
    assert_eq!(stats.closed, 1);
}

#[test]
fn tally_counts_each_kind() {
    let outcomes = vec![
        ProbeOutcome::Closed,
        ProbeOutcome::Closed,
        ProbeOutcome::NoMatch,
        ProbeOutcome::AccessDenied,
        ProbeOutcome::Unresolved,
        ProbeOutcome::CloseFailed,
    ];
    let stats = tally_probes(&outcomes);
    assert_eq!(stats.candidates, 6);
    assert_eq!(stats.resolved, 4);
    assert_eq!(stats.closed, 2);
}

#[test]
fn empty_scan_tallies_to_zero() {
    let stats = tally_probes(&vec![]);
    assert_eq!(stats.candidates, 0);
    assert_eq!(stats.resolved, 0);
    assert_eq!(stats.closed, 0);
}
