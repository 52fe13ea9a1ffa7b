use random_audit::AuditLog;
use random_audit::CallContext;
use random_audit::MAX_ENTRIES;
use random_audit::RandomNumberEntry;

fn entry_with_id(sequence_id: u64) -> RandomNumberEntry {
    RandomNumberEntry {
        number: sequence_id,
        timestamp: sequence_id,
        sequence_id,
        call_context: CallContext {
            caller_principal: None,
            execution_round: 0,
            canister_version: 1,
            cycles_consumed: 0,
        },
    }
}

#[test]
fn append_stays_within_cap_and_evicts_oldest_first() {
    let mut log = AuditLog::new();
    for id in 1..=1003u64 {
        log.append(entry_with_id(id));
        assert!(log.len() <= MAX_ENTRIES);
    }
    assert_eq!(log.len(), MAX_ENTRIES);
    // The survivors are the newest thousand, in their original order.
    let snapshot = log.snapshot();
    assert_eq!(snapshot.first().unwrap().sequence_id, 1003);
    assert_eq!(snapshot.last().unwrap().sequence_id, 4);
    for (k, entry) in snapshot.iter().enumerate() {
        assert_eq!(entry.sequence_id, 1003 - k as u64);
    }
}

#[test]
fn clear_old_entries_reports_how_many_were_removed() {
    let over_full: Vec<RandomNumberEntry> = (1..=1004u64).map(entry_with_id).collect();
    let mut log = AuditLog { entries: over_full };
    let removed = log.clear_old_entries();
    assert_eq!(removed, 4);
    assert_eq!(log.len(), MAX_ENTRIES);
    let snapshot = log.snapshot();
    assert_eq!(snapshot.last().unwrap().sequence_id, 5);
}

#[test]
fn clear_old_entries_below_cap_removes_nothing() {
    let mut log = AuditLog::new();
    log.append(entry_with_id(1));
    log.append(entry_with_id(2));
    let removed = log.clear_old_entries();
    assert_eq!(removed, 0);
    assert_eq!(log.len(), 2);
}

#[test]
fn snapshot_is_a_defensive_copy() {
    let mut log = AuditLog::new();
    log.append(entry_with_id(1));
    let mut snapshot = log.snapshot();
    snapshot.clear();
    assert_eq!(log.len(), 1);
}

#[test]
fn snapshot_reverses_append_order() {
    let mut log = AuditLog::new();
    for id in [4u64, 9, 12] {
        log.append(entry_with_id(id));
    }
    let snapshot = log.snapshot();
    let ids: Vec<u64> = snapshot.iter().map(|e| e.sequence_id).collect();
    assert_eq!(ids, vec![12, 9, 4]);
}
