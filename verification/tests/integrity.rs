use random_audit::CallContext;
use random_audit::RandomNumberEntry;
use random_audit::RandomNumberService;
use random_audit::integrity::verify_entries;

fn entry_with_id(sequence_id: u64) -> RandomNumberEntry {
    RandomNumberEntry {
        number: sequence_id * 100,
        timestamp: sequence_id,
        sequence_id,
        call_context: CallContext {
            caller_principal: None,
            execution_round: 0,
            canister_version: 1,
            cycles_consumed: 0,
        },
    }
}

#[test]
fn empty_log_is_valid() {
    let service = RandomNumberService::new();
    let status = service.verify_sequence_integrity();
    assert!(status.is_valid);
    assert_eq!(status.total_entries, 0);
    assert_eq!(status.expected_sequence_range, (0, 0));
    assert!(status.detected_gaps.is_empty());
    assert_eq!(status.error_message, None);
}

#[test]
fn single_gap_is_detected() {
    let entries: Vec<RandomNumberEntry> = [1u64, 2, 4, 5].iter().map(|&id| entry_with_id(id)).collect();
    let status = verify_entries(&entries);
    assert!(!status.is_valid);
    assert_eq!(status.total_entries, 4);
    assert_eq!(status.expected_sequence_range, (1, 5));
    assert_eq!(status.detected_gaps, vec![3]);
    assert_eq!(
        status.error_message,
        Some("Found 1 gaps in sequence".to_string())
    );
}

#[test]
fn several_gaps_come_out_ascending() {
    let entries: Vec<RandomNumberEntry> = [10u64, 2, 7, 5].iter().map(|&id| entry_with_id(id)).collect();
    let status = verify_entries(&entries);
    assert!(!status.is_valid);
    assert_eq!(status.expected_sequence_range, (2, 10));
    assert_eq!(status.detected_gaps, vec![3, 4, 6, 8, 9]);
    assert_eq!(
        status.error_message,
        Some("Found 5 gaps in sequence".to_string())
    );
}

#[test]
fn contiguous_ids_are_valid_even_unsorted() {
    let entries: Vec<RandomNumberEntry> = [3u64, 1, 2].iter().map(|&id| entry_with_id(id)).collect();
    let status = verify_entries(&entries);
    assert!(status.is_valid);
    assert_eq!(status.total_entries, 3);
    assert_eq!(status.expected_sequence_range, (1, 3));
    assert!(status.detected_gaps.is_empty());
    assert_eq!(status.error_message, None);
}

#[test]
fn single_entry_is_valid() {
    let entries = vec![entry_with_id(41)];
    let status = verify_entries(&entries);
    assert!(status.is_valid);
    assert_eq!(status.expected_sequence_range, (41, 41));
    assert!(status.detected_gaps.is_empty());
}
