//! The failures that a pool operation can report.

use vstd::prelude::*;

verus! {

/// Why an operation on a pool was refused. A refused operation changes
/// nothing: neither the pool's records nor any asset holding.
#[derive(Clone, Copy, Debug, PartialEq, Eq, Structural)]
pub enum PoolError {
    /// `initialize` was called on a pool that already has a configuration.
    AlreadyInitialized,
    /// The operation needs a configuration and the pool has none yet.
    Uninitialized,
    /// The call was not authorized by the identity that the operation names.
    Unauthorized,
    /// The operation is not legal in the pool's present lifecycle state.
    InvalidState,
    /// The depositor has no recorded principal to withdraw.
    NoBalance,
    /// Nothing has been deposited, so there is nothing to release.
    NoFunds,
    /// The asset interface refused to move the amount.
    TransferFailed,
    /// A share was asked of a pool whose recorded principal is zero.
    DivisionByZero,
    /// An amount to be recorded or paid lies outside the range of `i128`.
    Overflow,
}

/// Why an asset ledger refused a transfer or an issue.
#[derive(Clone, Copy, Debug, PartialEq, Eq, Structural)]
pub enum TransferError {
    /// The amount is below zero.
    NegativeAmount,
    /// The paying account holds less than the amount.
    InsufficientFunds,
    /// The receiving account would hold more than `i128::MAX`.
    HoldingOverflow,
}

} // verus!
