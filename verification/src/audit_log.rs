//! The bounded, append-only store of audit entries.

use vstd::prelude::*;

use crate::entry::RandomNumberEntry;

verus! {

/// The greatest number of entries the log retains after an append completes.
pub const MAX_ENTRIES: u64 = 1000;

/// The contents of a log after eviction has run: if the sequence is over the
/// cap, the front (oldest) entries are dropped until the cap is reached;
/// otherwise the sequence is unchanged.
pub open spec fn spec_evict(s: Seq<RandomNumberEntry>) -> Seq<RandomNumberEntry> {
    if s.len() > MAX_ENTRIES {
        s.skip(s.len() - MAX_ENTRIES as int)
    } else {
        s
    }
}

/// Entries stored in strictly increasing sequence-identifier order.
pub open spec fn sorted_by_sequence_id(s: Seq<RandomNumberEntry>) -> bool {
    forall|i: int, j: int|
        0 <= i < j < s.len() ==> s[i].sequence_id < s[j].sequence_id
}

/// An ordered, bounded store of audit entries, mutated only by appending and
/// by oldest-first eviction.
pub struct AuditLog {
    pub entries: Vec<RandomNumberEntry>,
}

impl AuditLog {
    /// A fresh, empty log.
    pub fn new() -> (log: AuditLog)
        ensures
            log.entries@ == Seq::<RandomNumberEntry>::empty(),
    {
        AuditLog { entries: Vec::new() }
    }

    /// How many entries the log currently holds.
    pub fn len(&self) -> (n: u64)
        ensures
            n == self.entries@.len(),
    {
        self.entries.len() as u64
    }

    /// Adds an entry at the end of storage, then evicts down to the cap.
    pub fn append(&mut self, entry: RandomNumberEntry)
        ensures
            final(self).entries@ == spec_evict(old(self).entries@.push(entry)),
    {
        self.entries.push(entry);
        let _removed = self.clear_old_entries();
    }

    /// Removes the oldest entries until at most `MAX_ENTRIES` remain,
    /// preserving the order of the survivors. Returns how many entries were
    /// removed, so a caller may report the cleanup.
    pub fn clear_old_entries(&mut self) -> (removed: u64)
        ensures
            final(self).entries@ == spec_evict(old(self).entries@),
            removed == old(self).entries@.len() - final(self).entries@.len(),
    {
        let len = self.entries.len();
        if len > MAX_ENTRIES as usize {
            let excess = len - MAX_ENTRIES as usize;
            let mut k: usize = 0;
            while k < excess
                invariant
                    k <= excess,
                    excess == len - MAX_ENTRIES as usize,
                    len == old(self).entries@.len(),
                    len > MAX_ENTRIES,
                    self.entries@ == old(self).entries@.skip(k as int),
                decreases excess - k,
            {
                self.entries.remove(0);
                proof {
                    assert(old(self).entries@.skip(k as int).remove(0)
                        =~= old(self).entries@.skip(k + 1 as int));
                }
                k = k + 1;
            }
            excess as u64
        } else {
            0
        }
    }

    /// All current entries, most recently appended first. The result is a
    /// defensive copy: the live log cannot be changed through it.
    pub fn snapshot(&self) -> (out: Vec<RandomNumberEntry>)
        ensures
            out@ == self.entries@.reverse(),
    {
        let mut out: Vec<RandomNumberEntry> = Vec::new();
        let mut i: usize = self.entries.len();
        while i > 0
            invariant
                i <= self.entries@.len(),
                out@.len() == self.entries@.len() - i,
                forall|k: int|
                    0 <= k < out@.len() ==> out@[k] == self.entries@[self.entries@.len() - 1 - k],
            decreases i,
        {
            i = i - 1;
            out.push(self.entries[i].clone());
        }
        proof {
            assert(out@ =~= self.entries@.reverse());
        }
        out
    }
}

/// After eviction the log never exceeds the cap, and holds exactly the lesser
/// of the appended total and the cap.
pub proof fn lemma_evict_len(s: Seq<RandomNumberEntry>)
    ensures
        spec_evict(s).len() == vstd::math::min(s.len() as int, MAX_ENTRIES as int),
        spec_evict(s).len() <= MAX_ENTRIES,
{
}

/// Eviction of a log sorted by sequence identifier removes exactly the
/// entries with the smallest identifiers needed to return to the cap: the
/// survivors are the trailing entries in their original relative order, and
/// every removed entry has a smaller identifier than every survivor.
pub proof fn lemma_evict_removes_oldest(s: Seq<RandomNumberEntry>)
    requires
        sorted_by_sequence_id(s),
    ensures
        forall|i: int|
            0 <= i < spec_evict(s).len()
                ==> spec_evict(s)[i] == s[i + (s.len() - spec_evict(s).len())],
        forall|k: int, i: int|
            0 <= k < s.len() - spec_evict(s).len() && 0 <= i < spec_evict(s).len()
                ==> s[k].sequence_id < spec_evict(s)[i].sequence_id,
{
}

} // verus!
