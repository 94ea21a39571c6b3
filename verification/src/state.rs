//! The lifecycle of a pool.

use vstd::prelude::*;

verus! {

/// Where a pool stands in its life. A pool starts `Open`, becomes `Active`
/// when its funds are released, and `Repaid` once the borrower has returned
/// at least the recorded principal. Nothing leaves `Repaid`.
#[derive(Clone, Copy, Debug, PartialEq, Eq, Structural)]
pub enum PoolState {
    /// Accepting deposits; depositors may still take their principal back.
    Open,
    /// Funds are with the borrower; no deposit and no withdrawal.
    Active,
    /// The loan has been repaid; depositors claim their shares.
    Repaid,
}

impl PoolState {
    /// The number under which the state is reported: 0, 1 or 2.
    pub open spec fn code(self) -> u32 {
        match self {
            PoolState::Open => 0,
            PoolState::Active => 1,
            PoolState::Repaid => 2,
        }
    }

    /// Reports the state as a number, see [`PoolState::code`].
    pub fn as_u32(self) -> (n: u32)
        ensures
            n == self.code(),
    {
        match self {
            PoolState::Open => 0,
            PoolState::Active => 1,
            PoolState::Repaid => 2,
        }
    }
}

} // verus!
