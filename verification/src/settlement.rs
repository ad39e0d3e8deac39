//! The per-participant settlement lock.
//!
//! Every operation that spans an external call follows the same protocol:
//! validate, apply the mutation optimistically, mark the participant pending,
//! issue the call, and — when the one result arrives — either finalize or
//! execute the recorded compensation. The coordinator holds the pending
//! marker: at most one settlement is in flight per participant, and each
//! settlement is resolved exactly once.

use std::collections::HashMap;
use vstd::prelude::*;

use crate::errors::Error;

verus! {

broadcast use vstd::std_specs::hash::group_hash_axioms;

/// Which operation a pending settlement belongs to. Together with the
/// participant id it forms the correlation id of the external call.
#[derive(Clone, Copy, Debug, PartialEq, Eq, Structural)]
pub enum SettlementKind {
    Claim,
    Revoke,
    Register,
}

/// One in-flight settlement: its kind and the amount that the recorded
/// compensation has to restore (zero where nothing was applied).
#[derive(Clone, Copy, Debug, PartialEq, Eq, Structural)]
pub struct PendingSettlement {
    pub kind: SettlementKind,
    pub amount: u128,
}

/// The pending markers, one per participant at most.
pub struct SettlementCoordinator {
    pub pending: HashMap<u64, PendingSettlement>,
}

impl View for SettlementCoordinator {
    type V = Map<u64, PendingSettlement>;

    open spec fn view(&self) -> Map<u64, PendingSettlement> {
        self.pending@
    }
}

impl SettlementCoordinator {
    /// A coordinator with no settlement in flight.
    pub fn new() -> (c: SettlementCoordinator)
        ensures
            c@ == Map::<u64, PendingSettlement>::empty(),
    {
        SettlementCoordinator { pending: HashMap::new() }
    }

    /// Whether the participant has a settlement in flight.
    pub fn is_pending(&self, participant: u64) -> (r: bool)
        ensures
            r == self@.contains_key(participant),
    {
        self.pending.contains_key(&participant)
    }

    /// The participant's pending settlement, if any.
    pub fn get(&self, participant: u64) -> (r: Option<PendingSettlement>)
        ensures
            match r {
                Some(p) => self@.contains_key(participant) && p == self@[participant],
                None => !self@.contains_key(participant),
            },
    {
        match self.pending.get(&participant) {
            Some(p) => Some(*p),
            None => None,
        }
    }

    /// Acquires the lock for one settlement; rejected while another is in
    /// flight for the same participant.
    pub fn begin(&mut self, participant: u64, kind: SettlementKind, amount: u128) -> (r: Result<
        (),
        Error,
    >)
        ensures
            old(self)@.contains_key(participant) ==> r == Err::<(), Error>(
                Error::OperationInProgress,
            ) && final(self)@ == old(self)@,
            !old(self)@.contains_key(participant) ==> r == Ok::<(), Error>(()) && final(self)@
                == old(self)@.insert(participant, PendingSettlement { kind, amount }),
    {
        if self.pending.contains_key(&participant) {
            Err(Error::OperationInProgress)
        } else {
            self.pending.insert(participant, PendingSettlement { kind, amount });
            Ok(())
        }
    }

    /// Consumes the pending settlement with the given correlation id and
    /// returns its recorded amount. A resolution whose correlation id matches
    /// no pending settlement — because it was already resolved once, or never
    /// started — is rejected as `DuplicateResolution` with no mutation.
    pub fn resolve(&mut self, participant: u64, kind: SettlementKind) -> (r: Result<u128, Error>)
        ensures
            old(self)@.contains_key(participant) && old(self)@[participant].kind == kind ==> r
                == Ok::<u128, Error>(old(self)@[participant].amount) && final(self)@ == old(
                self,
            )@.remove(participant),
            !(old(self)@.contains_key(participant) && old(self)@[participant].kind == kind) ==> r
                == Err::<u128, Error>(Error::DuplicateResolution) && final(self)@ == old(self)@,
    {
        let entry = match self.pending.get(&participant) {
            Some(p) => *p,
            None => {
                return Err(Error::DuplicateResolution);
            },
        };
        if entry.kind == kind {
            self.pending.remove(&participant);
            Ok(entry.amount)
        } else {
            Err(Error::DuplicateResolution)
        }
    }
}

} // verus!
