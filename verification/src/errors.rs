//! Error kinds shared by the ledgers.
//!
//! Validation errors are checked before any mutation, so an operation that
//! returns one leaves the ledger exactly as it was. Arithmetic errors abort
//! the whole operation with no partial state. Concurrency errors
//! (`OperationInProgress`, `DuplicateResolution`) signal a violation of the
//! settlement protocol: a second operation on a participant whose settlement
//! is still pending, or a second resolution of the same settlement.

use vstd::prelude::*;

verus! {

/// Every way an operation of this crate can reject its input.
#[derive(Clone, Copy, Debug, PartialEq, Eq, Structural)]
pub enum Error {
    /// The participant has no record in the ledger.
    NotFound,
    /// The caller of `claim` is not a beneficiary of any vesting schedule.
    NotBeneficiary,
    /// The vesting schedule was already revoked.
    AlreadyRevoked,
    /// The vesting schedule was created non-revocable.
    NotRevocable,
    /// The vested amount does not exceed what was already claimed.
    NothingClaimable,
    /// A schedule with neither a cliff nor any releases was submitted.
    InvalidParams,
    /// An addition or multiplication would exceed the integer range.
    ArithmeticOverflow,
    /// A subtraction would fall below zero.
    ArithmeticUnderflow,
    /// A division by zero was requested.
    DivisionByZero,
    /// The participant already has a settlement in flight.
    OperationInProgress,
    /// A settlement was resolved a second time, or never started.
    DuplicateResolution,
    /// The external call failed; the optimistic mutation was compensated.
    ExternalCallFailed,
    /// The current time is outside the registration window.
    RegistrationClosed,
    /// The participant already holds a qualifying tier.
    AlreadyRegistered,
    /// The stake oracle reported an asset other than the expected token.
    WrongToken,
    /// The reported stake qualifies for no tier.
    InsufficientStake,
    /// The participant is unknown or still untiered.
    NotRegistered,
    /// The current time is outside the sale window.
    SaleClosed,
    /// Every tier has zero participants, so no allocation can be computed.
    NoParticipants,
    /// The purchase would leave the total at or below the minimum tier cap.
    BelowMinimumCap,
    /// The purchase would lift the total to or above the maximum tier cap.
    AboveMaximumCap,
}

} // verus!
