//! The failures an escrow operation can report.

use vstd::prelude::*;

verus! {

/// Why an escrow operation was rejected.
#[derive(Clone, Copy, Debug, PartialEq, Eq, Structural)]
pub enum EscrowError {
    /// The order identifier is already taken on this ledger side.
    OrderAlreadyExists,
    /// No order is stored under the identifier.
    OrderDoesNotExist,
    /// The source order has already been paid out to the resolver.
    AlreadyWithdrawn,
    /// The source order has already been refunded to the maker.
    AlreadyCancelled,
    /// A refund was asked for before the deadline.
    TimeoutNotExpired,
    /// A withdrawal was asked for at or after the deadline.
    TimeoutExpired,
    /// The revealed secret does not hash to the committed value.
    InvalidSecret,
    /// The caller is not the order's resolver.
    CallerNotResolver,
    /// The caller is not the order's maker.
    CallerNotMaker,
    /// The asset leg of a transfer could not be carried out.
    TokenTransferFailed,
    /// The amount or the safety deposit is zero.
    ZeroAmount,
    /// The destination order has already been claimed by the maker.
    AlreadyWithdrawnByMaker,
    /// The destination order has already been refunded to the resolver.
    AlreadyCancelledByResolver,
    /// The order record holds less native currency than the safety deposit.
    InsufficientEscrowBalance,
    /// A sum left the range of its integer type.
    Overflow,
}

} // verus!
