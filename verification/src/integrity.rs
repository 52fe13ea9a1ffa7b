//! The integrity check: detecting gaps in the recorded sequence identifiers.

use vstd::prelude::*;

use crate::entry::RandomNumberEntry;
use crate::text::found_gaps_message;
use crate::text::spec_decimal;

verus! {

/// The outcome of an integrity check over the audit entries.
#[derive(Debug)]
pub struct SequenceIntegrityStatus {
    pub is_valid: bool,
    pub total_entries: u64,
    /// The least and greatest sequence identifiers present, `(min, max)`;
    /// `(0, 0)` for an empty log.
    pub expected_sequence_range: (u64, u64),
    /// The sequence identifiers missing within the range, in ascending order.
    pub detected_gaps: Vec<u64>,
    pub error_message: Option<String>,
}

/// Some entry carries the given sequence identifier.
pub open spec fn has_id(s: Seq<RandomNumberEntry>, id: u64) -> bool {
    exists|i: int| 0 <= i < s.len() && s[i].sequence_id == id
}

/// What a correct integrity check reports for the given entries.
pub open spec fn integrity_status_ok(
    s: Seq<RandomNumberEntry>,
    status: SequenceIntegrityStatus,
) -> bool {
    &&& status.total_entries == s.len()
    &&& status.is_valid <==> status.detected_gaps@.len() == 0
    &&& (status.is_valid <==> status.error_message is None)
    &&& (status.error_message matches Some(m)
        ==> m@ == "Found "@ + spec_decimal(status.detected_gaps@.len()) + " gaps in sequence"@)
    &&& (s.len() == 0 ==> {
        &&& status.is_valid
        &&& status.expected_sequence_range == (0u64, 0u64)
        &&& status.detected_gaps@.len() == 0
    })
    &&& (s.len() > 0 ==> {
        &&& has_id(s, status.expected_sequence_range.0)
        &&& has_id(s, status.expected_sequence_range.1)
        &&& forall|i: int|
            0 <= i < s.len()
                ==> status.expected_sequence_range.0 <= #[trigger] s[i].sequence_id
                    <= status.expected_sequence_range.1
        &&& forall|g: u64|
            #[trigger] status.detected_gaps@.contains(g)
                <==> (status.expected_sequence_range.0 <= g <= status.expected_sequence_range.1
                    && !has_id(s, g))
        &&& forall|k: int, l: int|
            0 <= k < l < status.detected_gaps@.len()
                ==> status.detected_gaps@[k] < status.detected_gaps@[l]
    })
}

/// Whether some entry carries the given sequence identifier.
fn contains_id(entries: &Vec<RandomNumberEntry>, id: u64) -> (present: bool)
    ensures
        present == has_id(entries@, id),
{
    let mut i: usize = 0;
    while i < entries.len()
        invariant
            i <= entries@.len(),
            forall|k: int| 0 <= k < i ==> entries@[k].sequence_id != id,
        decreases entries@.len() - i,
    {
        if entries[i].sequence_id == id {
            return true;
        }
        i = i + 1;
    }
    false
}

/// Inspects the given entries and reports whether the recorded sequence
/// identifiers are contiguous, together with the identifier range, the
/// missing identifiers in ascending order, and a diagnostic message when
/// gaps were found.
pub fn verify_entries(entries: &Vec<RandomNumberEntry>) -> (status: SequenceIntegrityStatus)
    ensures
        integrity_status_ok(entries@, status),
{
    let total_entries = entries.len() as u64;

    if entries.len() == 0 {
        return SequenceIntegrityStatus {
            is_valid: true,
            total_entries: 0,
            expected_sequence_range: (0, 0),
            detected_gaps: Vec::new(),
            error_message: None,
        };
    }

    // Scan for the least and greatest sequence identifiers present.
    let mut min_seq = entries[0].sequence_id;
    let mut max_seq = entries[0].sequence_id;
    let mut i: usize = 1;
    while i < entries.len()
        invariant
            1 <= i <= entries@.len(),
            entries@.len() > 0,
            has_id(entries@, min_seq),
            has_id(entries@, max_seq),
            forall|k: int| 0 <= k < i ==> min_seq <= #[trigger] entries@[k].sequence_id <= max_seq,
        decreases entries@.len() - i,
    {
        let id = entries[i].sequence_id;
        if id < min_seq {
            min_seq = id;
        }
        if id > max_seq {
            max_seq = id;
        }
        i = i + 1;
    }

    // Walk the range below its greatest identifier collecting the missing
    // ones; the greatest identifier is present, so it is never a gap.
    let mut detected_gaps: Vec<u64> = Vec::new();
    let mut candidate = min_seq;
    while candidate < max_seq
        invariant
            min_seq <= candidate <= max_seq,
            has_id(entries@, min_seq),
            has_id(entries@, max_seq),
            forall|g: u64|
                #[trigger] detected_gaps@.contains(g)
                    <==> (min_seq <= g < candidate && !has_id(entries@, g)),
            forall|k: int| 0 <= k < detected_gaps@.len() ==> detected_gaps@[k] < candidate,
            forall|k: int, l: int|
                0 <= k < l < detected_gaps@.len() ==> detected_gaps@[k] < detected_gaps@[l],
        decreases max_seq - candidate,
    {
        if !contains_id(entries, candidate) {
            detected_gaps.push(candidate);
        }
        proof {
            broadcast use vstd::seq_lib::lemma_seq_contains_after_push;

        }
        candidate = candidate + 1;
    }

    let is_valid = detected_gaps.is_empty();
    let error_message = if !is_valid {
        Some(found_gaps_message(detected_gaps.len() as u64))
    } else {
        None
    };

    SequenceIntegrityStatus {
        is_valid,
        total_entries,
        expected_sequence_range: (min_seq, max_seq),
        detected_gaps,
        error_message,
    }
}

} // verus!
