//! The records kept by the audit log.

use vstd::prelude::*;

verus! {

/// Execution metadata captured alongside each generated value.
///
/// The caller identity is best effort and may be absent; the remaining fields
/// are placeholders for host metadata with no defined semantics and may be
/// zero (or one, for the version) when the host does not supply them.
#[derive(Debug)]
pub struct CallContext {
    pub caller_principal: Option<String>,
    pub execution_round: u64,
    pub canister_version: u64,
    pub cycles_consumed: u64,
}

/// One audit record: a generated value, the time it was produced, its unique
/// sequence identifier, and the context of the producing call.
#[derive(Debug)]
pub struct RandomNumberEntry {
    pub number: u64,
    pub timestamp: u64,
    pub sequence_id: u64,
    pub call_context: CallContext,
}

impl Clone for CallContext {
    fn clone(&self) -> (res: Self)
        ensures
            res == *self,
    {
        let caller_principal = match &self.caller_principal {
            Some(p) => Some(p.clone()),
            None => None,
        };
        CallContext {
            caller_principal,
            execution_round: self.execution_round,
            canister_version: self.canister_version,
            cycles_consumed: self.cycles_consumed,
        }
    }
}

impl Clone for RandomNumberEntry {
    fn clone(&self) -> (res: Self)
        ensures
            res == *self,
    {
        RandomNumberEntry {
            number: self.number,
            timestamp: self.timestamp,
            sequence_id: self.sequence_id,
            call_context: self.call_context.clone(),
        }
    }
}

} // verus!
