//! Time-based token entitlements (vesting) and tier-gated sale allocations.
//!
//! The crate models two ledgers and the settlement protocol they share:
//!
//! * [`vesting::VestingLedger`] holds one vesting schedule per participant and
//!   computes the vested amount as a function of time; `claim` and `revoke`
//!   optimistically mutate the ledger and hand the value transfer to an
//!   external service, whose failure is compensated exactly.
//! * [`allocation::AllocationLedger`] holds one sale record per participant,
//!   assigns stake-based tiers through [`tier::TierRegistry`] and enforces
//!   pro-rata allocation caps on purchases.
//! * [`settlement::SettlementCoordinator`] is the per-participant lock for the
//!   optimistic-update / compensate-on-failure protocol: while a settlement is
//!   pending, every other operation on the same participant is rejected, and
//!   each settlement is resolved exactly once.
//!
//! All asynchronous work (the transfer service and the stake oracle) happens
//! outside this crate; the ledgers take plain values (the current time in
//! seconds, the reported stake, the success flag of a transfer) and state in
//! their contracts exactly how every outcome changes the ledger.

pub mod allocation;
pub mod errors;
pub mod settlement;
pub mod tier;
pub mod vesting;

use vstd::prelude::*;

verus! {

/// Seconds-resolution timestamp.
pub type TimestampSec = u64;

/// Converts a nanosecond timestamp to whole seconds.
pub fn nano_to_sec(nano: u64) -> (sec: TimestampSec)
    ensures
        sec == nano / 1_000_000_000,
{
    nano / 1_000_000_000
}

} // verus!
