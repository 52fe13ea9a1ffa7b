//! The random-number service: orchestrates generation, sequence allocation,
//! and the audit write, and degrades gracefully when the audit path fails.

use vstd::prelude::*;

use crate::audit_log::AuditLog;
use crate::audit_log::MAX_ENTRIES;
use crate::audit_log::sorted_by_sequence_id;
use crate::audit_log::spec_evict;
use crate::encoding::be_bytes_to_u64;
use crate::encoding::spec_be_u64;
use crate::entry::CallContext;
use crate::entry::RandomNumberEntry;
use crate::integrity::SequenceIntegrityStatus;
use crate::integrity::integrity_status_ok;
use crate::integrity::verify_entries;

verus! {

/// Why a generation failed. Audit-path trouble is never reported here: only
/// the randomness source itself can fail a generation.
#[derive(Debug, PartialEq, Eq)]
pub enum GenerationError {
    /// The randomness source returned fewer than eight bytes.
    InsufficientEntropy,
    /// The randomness source reported a failure; the detail is carried
    /// verbatim.
    SourceUnavailable(String),
}

impl GenerationError {
    /// The failure rendered as text.
    pub fn message(&self) -> (m: String)
        ensures
            match self {
                GenerationError::InsufficientEntropy => m@ == "Insufficient random bytes received"@,
                GenerationError::SourceUnavailable(details) => m@
                    == "Failed to generate random number: "@ + details@,
            },
    {
        match self {
            GenerationError::InsufficientEntropy => String::from_str(
                "Insufficient random bytes received",
            ),
            GenerationError::SourceUnavailable(details) => {
                let mut m = String::from_str("Failed to generate random number: ");
                m.append(details.as_str());
                m
            },
        }
    }
}

/// The service state: the sequence allocator's counter, the audit log, and a
/// ghost record of every identifier ever assigned, in allocation order.
pub struct RandomNumberService {
    pub sequence_counter: u64,
    pub log: AuditLog,
    pub assigned_ids: Ghost<Seq<u64>>,
}

impl RandomNumberService {
    /// Well-formedness, established at construction and preserved by every
    /// operation: the identifiers assigned so far are exactly 1 through
    /// `sequence_counter` in order, and the log holds the most recent of
    /// them, in order, capped at `MAX_ENTRIES`.
    pub open spec fn wf(self) -> bool {
        &&& self.assigned_ids@.len() == self.sequence_counter
        &&& (forall|i: int|
            0 <= i < self.assigned_ids@.len() ==> #[trigger] self.assigned_ids@[i] == i + 1)
        &&& self.log.entries@.len() == vstd::math::min(
            self.sequence_counter as int,
            MAX_ENTRIES as int,
        )
        &&& (forall|i: int|
            0 <= i < self.log.entries@.len() ==> #[trigger] self.log.entries@[i].sequence_id
                == self.sequence_counter - self.log.entries@.len() + 1 + i)
    }

    /// A fresh service: counter at zero, empty log.
    pub fn new() -> (service: RandomNumberService)
        ensures
            service.wf(),
            service.sequence_counter == 0,
            service.log.entries@ == Seq::<RandomNumberEntry>::empty(),
            service.assigned_ids@ == Seq::<u64>::empty(),
    {
        RandomNumberService {
            sequence_counter: 0,
            log: AuditLog::new(),
            assigned_ids: Ghost(Seq::empty()),
        }
    }

    /// One generation step, fed with the randomness source's outcome and the
    /// ambient execution context (caller identity, best effort, and the
    /// current time).
    ///
    /// On success the returned value is the big-endian reading of the first
    /// eight bytes supplied by the source, a fresh sequence identifier is
    /// allocated, and an entry is appended to the log (evicting the oldest
    /// entries beyond the cap). A source failure or short read leaves the
    /// service untouched.
    pub fn generate(
        &mut self,
        randomness: Result<Vec<u8>, String>,
        caller_principal: Option<String>,
        timestamp: u64,
    ) -> (result: Result<u64, GenerationError>)
        requires
            old(self).wf(),
            old(self).sequence_counter < u64::MAX,
        ensures
            final(self).wf(),
            match randomness {
                Result::Err(details) => {
                    &&& result == Result::<u64, GenerationError>::Err(
                        GenerationError::SourceUnavailable(details),
                    )
                    &&& *final(self) == *old(self)
                },
                Result::Ok(bytes) => if bytes@.len() < 8 {
                    &&& result == Result::<u64, GenerationError>::Err(
                        GenerationError::InsufficientEntropy,
                    )
                    &&& *final(self) == *old(self)
                } else {
                    &&& result == Result::<u64, GenerationError>::Ok(spec_be_u64(bytes@.take(8)))
                    &&& final(self).sequence_counter == old(self).sequence_counter + 1
                    &&& final(self).assigned_ids@ == old(self).assigned_ids@.push(
                        (old(self).sequence_counter + 1) as u64,
                    )
                    &&& final(self).log.entries@ == spec_evict(
                        old(self).log.entries@.push(
                            (RandomNumberEntry {
                                number: spec_be_u64(bytes@.take(8)),
                                timestamp: timestamp,
                                sequence_id: (old(self).sequence_counter + 1) as u64,
                                call_context: (CallContext {
                                    caller_principal: caller_principal,
                                    execution_round: 0,
                                    canister_version: 1,
                                    cycles_consumed: 0,
                                }),
                            }),
                        ),
                    )
                },
            },
    {
        match randomness {
            Result::Err(details) => Result::Err(GenerationError::SourceUnavailable(details)),
            Result::Ok(bytes) => {
                if bytes.len() < 8 {
                    return Result::Err(GenerationError::InsufficientEntropy);
                }
                let random_number = be_bytes_to_u64(&bytes);

                // Allocate the sequence identifier; no suspension separates
                // this step from the append below.
                let sequence_id = self.sequence_counter + 1;
                self.sequence_counter = sequence_id;
                proof {
                    self.assigned_ids@ = self.assigned_ids@.push(sequence_id);
                }
                let call_context = CallContext {
                    caller_principal,
                    execution_round: 0,
                    canister_version: 1,
                    cycles_consumed: 0,
                };
                let audit_entry = RandomNumberEntry {
                    number: random_number,
                    timestamp,
                    sequence_id,
                    call_context,
                };

                // The audit write's outcome is deliberately discarded: the
                // generated value is primary, the audit trail best effort.
                let _audit_outcome: Result<(), ()> = self.record_entry(audit_entry);

                Result::Ok(random_number)
            },
        }
    }

    /// The audit write path: appends the entry, evicting beyond the cap.
    fn record_entry(&mut self, audit_entry: RandomNumberEntry) -> (outcome: Result<(), ()>)
        ensures
            outcome is Ok,
            final(self).sequence_counter == old(self).sequence_counter,
            final(self).assigned_ids == old(self).assigned_ids,
            final(self).log.entries@ == spec_evict(old(self).log.entries@.push(audit_entry)),
    {
        self.log.append(audit_entry);
        Result::Ok(())
    }

    /// All recorded entries, most recent first, as a defensive copy.
    pub fn get_random_history(&self) -> (entries: Vec<RandomNumberEntry>)
        ensures
            entries@ == self.log.entries@.reverse(),
    {
        self.log.snapshot()
    }

    /// How many entries the log currently holds.
    pub fn get_history_count(&self) -> (count: u64)
        ensures
            count == self.log.entries@.len(),
    {
        self.log.len()
    }

    /// Checks the recorded sequence identifiers for gaps.
    pub fn verify_sequence_integrity(&self) -> (status: SequenceIntegrityStatus)
        ensures
            integrity_status_ok(self.log.entries@, status),
    {
        verify_entries(&self.log.entries)
    }
}

/// Law: the identifiers assigned across the successful generations of a
/// well-formed service are exactly 1 through `sequence_counter`, with no
/// duplicates.
pub proof fn lemma_assigned_ids_exact(service: RandomNumberService)
    requires
        service.wf(),
    ensures
        service.assigned_ids@.len() == service.sequence_counter,
        forall|i: int, j: int|
            0 <= i < j < service.assigned_ids@.len()
                ==> service.assigned_ids@[i] != service.assigned_ids@[j],
        forall|id: u64| #[trigger]
            service.assigned_ids@.contains(id) <==> 1 <= id <= service.sequence_counter,
{
    assert forall|id: u64|
        1 <= id <= service.sequence_counter implies #[trigger] service.assigned_ids@.contains(
        id,
    ) by {
        assert(service.assigned_ids@[id - 1] == id);
    };
    assert forall|id: u64| #[trigger]
        service.assigned_ids@.contains(id) implies 1 <= id <= service.sequence_counter by {
        let i = choose|i: int|
            0 <= i < service.assigned_ids@.len() && service.assigned_ids@[i] == id;
        assert(service.assigned_ids@[i] == i + 1);
    };
}

/// Law: a well-formed service's log stores its entries in strictly
/// increasing sequence-identifier order.
pub proof fn lemma_log_sorted(service: RandomNumberService)
    requires
        service.wf(),
    ensures
        sorted_by_sequence_id(service.log.entries@),
{
}

/// Law: after any number of generations, the log never exceeds the cap, and
/// its length equals the lesser of the count of successful generations and
/// the cap.
pub proof fn lemma_log_bounded(service: RandomNumberService)
    requires
        service.wf(),
    ensures
        service.log.entries@.len() <= MAX_ENTRIES,
        service.log.entries@.len() == vstd::math::min(
            service.sequence_counter as int,
            MAX_ENTRIES as int,
        ),
{
}

/// Law: the history as reported (most recent first) is strictly decreasing
/// in sequence identifier, matching reverse append order.
pub proof fn lemma_history_strictly_decreasing(service: RandomNumberService)
    requires
        service.wf(),
    ensures
        forall|i: int, j: int|
            0 <= i < j < service.log.entries@.reverse().len()
                ==> service.log.entries@.reverse()[i].sequence_id
                    > service.log.entries@.reverse()[j].sequence_id,
{
    let h = service.log.entries@.reverse();
    assert forall|i: int, j: int| 0 <= i < j < h.len() implies h[i].sequence_id
        > h[j].sequence_id by {
        assert(h[i] == service.log.entries@[h.len() - 1 - i]);
        assert(h[j] == service.log.entries@[h.len() - 1 - j]);
    };
}

} // verus!
