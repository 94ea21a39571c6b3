//! The pool's ledger and the rules that move it.
//!
//! A [`PoolLedger`] is the lifecycle state together with the recorded total
//! principal. Every rule here is a function from a ledger, and where it
//! matters one depositor's balance and the pool's custody, to the ledger
//! that follows and the amount of the asset that has to change hands. The
//! rules touch no asset: whoever applies one carries out the transfer it
//! asks for and commits the new records only if that transfer went through.

use vstd::prelude::*;
use crate::error::PoolError;
use crate::settlement::{proportional_share, share_of};
use crate::state::PoolState;

verus! {

/// The mutable records of a pool, apart from the depositors' balances.
#[derive(Clone, Copy, Debug, PartialEq, Eq, Structural)]
pub struct PoolLedger {
    /// Where the pool stands in its life.
    pub state: PoolState,
    /// The principal attributed to the pool. While the pool is `Open` this
    /// is the sum of the balances; once `Repaid` it stays fixed, as the
    /// denominator of every share.
    pub total_deposited: i128,
}

/// What a deposit leaves behind: the ledger and the depositor's balance.
#[derive(Clone, Copy, Debug, PartialEq, Eq, Structural)]
pub struct Credit {
    /// The ledger once the deposit is recorded.
    pub ledger: PoolLedger,
    /// The depositor's balance once the deposit is recorded.
    pub balance: i128,
}

/// What a payment out of the pool leaves behind: the ledger, and the amount
/// that the pool has to pay. The balance of the one who is paid becomes zero.
#[derive(Clone, Copy, Debug, PartialEq, Eq, Structural)]
pub struct Payout {
    /// The ledger once the payment is recorded.
    pub ledger: PoolLedger,
    /// The amount that leaves the pool's custody.
    pub amount: i128,
}

/// Whether `x` can be held in an `i128`.
pub open spec fn fits(x: int) -> bool {
    i128::MIN <= x <= i128::MAX
}

impl PoolLedger {
    /// The ledger of a pool that has just been set up.
    pub open spec fn fresh() -> PoolLedger {
        PoolLedger { state: PoolState::Open, total_deposited: 0 }
    }

    /// What [`PoolLedger::credit`] answers.
    pub open spec fn credited(self, balance: i128, amount: i128) -> Result<Credit, PoolError> {
        if self.state != PoolState::Open {
            Err(PoolError::InvalidState)
        } else if !fits(balance + amount) || !fits(self.total_deposited + amount) {
            Err(PoolError::Overflow)
        } else {
            Ok(
                Credit {
                    ledger: PoolLedger {
                        total_deposited: (self.total_deposited + amount) as i128,
                        ..self
                    },
                    balance: (balance + amount) as i128,
                },
            )
        }
    }

    /// What [`PoolLedger::settle`] answers.
    pub open spec fn settled(self, balance: i128, custody: i128) -> Result<Payout, PoolError> {
        if balance <= 0 {
            Err(PoolError::NoBalance)
        } else {
            match self.state {
                PoolState::Active => Err(PoolError::InvalidState),
                PoolState::Open => if fits(self.total_deposited - balance) {
                    Ok(
                        Payout {
                            ledger: PoolLedger {
                                total_deposited: (self.total_deposited - balance) as i128,
                                ..self
                            },
                            amount: balance,
                        },
                    )
                } else {
                    Err(PoolError::Overflow)
                },
                PoolState::Repaid => if self.total_deposited == 0 {
                    Err(PoolError::DivisionByZero)
                } else if fits(
                    share_of(balance as int, custody as int, self.total_deposited as int),
                ) {
                    Ok(
                        Payout {
                            ledger: self,
                            amount: share_of(
                                balance as int,
                                custody as int,
                                self.total_deposited as int,
                            ) as i128,
                        },
                    )
                } else {
                    Err(PoolError::Overflow)
                },
            }
        }
    }

    /// What [`PoolLedger::release`] answers.
    pub open spec fn released(self) -> Result<Payout, PoolError> {
        if self.state != PoolState::Open {
            Err(PoolError::InvalidState)
        } else if self.total_deposited == 0 {
            Err(PoolError::NoFunds)
        } else {
            Ok(
                Payout {
                    ledger: PoolLedger { state: PoolState::Active, ..self },
                    amount: self.total_deposited,
                },
            )
        }
    }

    /// What [`PoolLedger::complete_repayment`] answers.
    pub open spec fn repaid(self, custody: i128) -> Result<PoolLedger, PoolError> {
        if self.state != PoolState::Active {
            Err(PoolError::InvalidState)
        } else if custody >= self.total_deposited {
            Ok(PoolLedger { state: PoolState::Repaid, ..self })
        } else {
            Ok(self)
        }
    }

    /// The ledger of a pool that has just been set up: `Open`, nothing
    /// deposited.
    pub fn opened() -> (ledger: PoolLedger)
        ensures
            ledger == PoolLedger::fresh(),
    {
        PoolLedger { state: PoolState::Open, total_deposited: 0 }
    }

    /// Opens the ledger of a pool that is being set up. `configured` says
    /// whether the pool has a configuration already: such a pool is not set
    /// up again, and the call is refused with `AlreadyInitialized`.
    pub fn set_up(configured: bool) -> (r: Result<PoolLedger, PoolError>)
        ensures
            r == (if configured {
                Err::<PoolLedger, PoolError>(PoolError::AlreadyInitialized)
            } else {
                Ok(PoolLedger::fresh())
            }),
    {
        if configured {
            Err(PoolError::AlreadyInitialized)
        } else {
            Ok(PoolLedger::opened())
        }
    }

    /// Pays a depositor out. `custody` is what the pool holds now.
    ///
    /// An `Open` pool refunds the whole `balance` and takes it off the
    /// total. A `Repaid` pool pays the depositor's share of the pot, which
    /// is the custody as it stands now, and leaves the total alone: the
    /// total is the denominator of every share, whoever has claimed before.
    /// An `Active` pool pays nothing.
    ///
    /// A balance that is not positive is refused with `NoBalance`, whatever
    /// the state. A `Repaid` pool with a total of zero refuses with
    /// `DivisionByZero`. An amount outside the range of `i128` is refused
    /// with `Overflow`.
    pub fn settle(self, balance: i128, custody: i128) -> (r: Result<Payout, PoolError>)
        ensures
            r == self.settled(balance, custody),
    {
        if balance <= 0 {
            return Err(PoolError::NoBalance);
        }
        match self.state {
            PoolState::Open => match self.total_deposited.checked_sub(balance) {
                Some(rest) => Ok(
                    Payout {
                        ledger: PoolLedger { state: self.state, total_deposited: rest },
                        amount: balance,
                    },
                ),
                None => Err(PoolError::Overflow),
            },
            PoolState::Repaid => match proportional_share(balance, custody, self.total_deposited) {
                Ok(share) => Ok(Payout { ledger: self, amount: share }),
                Err(e) => Err(e),
            },
            PoolState::Active => Err(PoolError::InvalidState),
        }
    }

    /// Releases the pooled principal to the borrower: the whole recorded
    /// total is to be paid out and the pool becomes `Active`. Refused with
    /// `InvalidState` unless the pool is `Open`, and with `NoFunds` when
    /// nothing has been deposited.
    pub fn release(self) -> (r: Result<Payout, PoolError>)
        ensures
            r == self.released(),
    {
        match self.state {
            PoolState::Open => {
                if self.total_deposited == 0 {
                    Err(PoolError::NoFunds)
                } else {
                    Ok(
                        Payout {
                            ledger: PoolLedger {
                                state: PoolState::Active,
                                total_deposited: self.total_deposited,
                            },
                            amount: self.total_deposited,
                        },
                    )
                }
            },
            _ => Err(PoolError::InvalidState),
        }
    }

    /// Says whether a repayment may be made now: only while the pool is
    /// `Active`.
    pub fn begin_repayment(self) -> (r: Result<(), PoolError>)
        ensures
            r == (if self.state == PoolState::Active {
                Ok::<(), PoolError>(())
            } else {
                Err(PoolError::InvalidState)
            }),
    {
        match self.state {
            PoolState::Active => Ok(()),
            _ => Err(PoolError::InvalidState),
        }
    }

    /// Takes note of a repayment. `custody` is what the pool holds once the
    /// repayment has arrived. If that covers the recorded total, the pool
    /// becomes `Repaid`; otherwise it stays `Active` and waits for more.
    /// Refused with `InvalidState` unless the pool is `Active`.
    pub fn complete_repayment(self, custody: i128) -> (r: Result<PoolLedger, PoolError>)
        ensures
            r == self.repaid(custody),
    {
        match self.state {
            PoolState::Active => {
                if custody >= self.total_deposited {
                    Ok(
                        PoolLedger {
                            state: PoolState::Repaid,
                            total_deposited: self.total_deposited,
                        },
                    )
                } else {
                    Ok(self)
                }
            },
            _ => Err(PoolError::InvalidState),
        }
    }

    /// Records a deposit of `amount` by a depositor whose balance is
    /// `balance`: both the balance and the total grow by `amount`. Only an
    /// `Open` pool takes deposits; an amount that takes either figure out of
    /// the range of `i128` is refused with `Overflow`. The rule itself sets
    /// no lower bound on `amount`: it is the asset interface that refuses to
    /// move a negative amount.
    pub fn credit(self, balance: i128, amount: i128) -> (r: Result<Credit, PoolError>)
        ensures
            r == self.credited(balance, amount),
    {
        match self.state {
            PoolState::Open => {
                match (balance.checked_add(amount), self.total_deposited.checked_add(amount)) {
                    (Some(new_balance), Some(new_total)) => Ok(
                        Credit {
                            ledger: PoolLedger { state: self.state, total_deposited: new_total },
                            balance: new_balance,
                        },
                    ),
                    _ => Err(PoolError::Overflow),
                }
            },
            _ => Err(PoolError::InvalidState),
        }
    }
}

} // verus!
