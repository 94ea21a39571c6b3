//! An asset ledger: who holds how much of one fungible asset.
//!
//! The pool never keeps the asset itself. It asks an asset ledger to move
//! amounts between accounts, its own custody account among them, and to say
//! what an account holds. A transfer either happens in full or not at all.
//! The ledger moves what it is told to move: whether the owner of an
//! account has agreed is for the caller to establish.

use vstd::prelude::*;
use crate::book::{lemma_amount_within_sum, none_negative, AccountBook, Entry};
use crate::error::TransferError;

verus! {

/// The holdings of one asset, by account.
pub struct AssetLedger {
    id: u64,
    holdings: AccountBook,
}

impl AssetLedger {
    /// The identifier of the asset.
    pub closed spec fn asset_id(&self) -> u64 {
        self.id
    }

    /// The book that holds one line per account.
    pub closed spec fn book(&self) -> AccountBook {
        self.holdings
    }

    /// The ledger is in order: one line per account, no holding negative.
    pub open spec fn wf(&self) -> bool {
        self.book().wf() && none_negative(self.book()@)
    }

    /// What `who` holds; zero for an account that never received anything.
    pub open spec fn holding(&self, who: u64) -> i128 {
        self.book().amount_of(who)
    }

    /// The whole amount in existence.
    pub open spec fn supply(&self) -> int {
        self.book().total()
    }

    /// Why the ledger would refuse to move `amount` from `from` to `to`, if
    /// it would.
    pub open spec fn refusal(&self, from: u64, to: u64, amount: int) -> Option<TransferError> {
        if amount < 0 {
            Some(TransferError::NegativeAmount)
        } else if self.holding(from) < amount {
            Some(TransferError::InsufficientFunds)
        } else if from != to && self.holding(to) + amount > i128::MAX {
            Some(TransferError::HoldingOverflow)
        } else {
            None
        }
    }

    /// Whether the ledger would move `amount` from `from` to `to`.
    pub open spec fn can_transfer(&self, from: u64, to: u64, amount: int) -> bool {
        self.refusal(from, to, amount) is None
    }

    /// What `who` holds once `amount` has moved from `from` to `to`.
    pub open spec fn holding_after(&self, from: u64, to: u64, amount: int, who: u64) -> int {
        self.holding(who) - (if who == from {
            amount
        } else {
            0
        }) + (if who == to {
            amount
        } else {
            0
        })
    }

    /// The ledger of the asset `id`, with nothing issued yet.
    pub fn new(id: u64) -> (ledger: AssetLedger)
        ensures
            ledger.wf(),
            ledger.asset_id() == id,
            ledger.book()@ == Seq::<Entry>::empty(),
    {
        AssetLedger { id, holdings: AccountBook::new() }
    }

    /// The identifier of the asset.
    pub fn id(&self) -> (id: u64)
        ensures
            id == self.asset_id(),
    {
        self.id
    }

    /// Says what `who` holds.
    pub fn balance_of(&self, who: u64) -> (amount: i128)
        ensures
            amount == self.holding(who),
    {
        self.holdings.get(who)
    }

    /// Issues `amount` new units to `to`. Refused, with nothing changed,
    /// when the amount is negative or the holding would pass `i128::MAX`.
    pub fn mint(&mut self, to: u64, amount: i128) -> (r: Result<(), TransferError>)
        requires
            old(self).wf(),
        ensures
            final(self).wf(),
            final(self).asset_id() == old(self).asset_id(),
            amount < 0 ==> r == Err::<(), TransferError>(TransferError::NegativeAmount),
            amount >= 0 && old(self).holding(to) + amount > i128::MAX ==> r == Err::<
                (),
                TransferError,
            >(TransferError::HoldingOverflow),
            amount >= 0 && old(self).holding(to) + amount <= i128::MAX ==> r == Ok::<
                (),
                TransferError,
            >(()),
            r is Err ==> *final(self) == *old(self),
            r is Ok ==> final(self).holding(to) == old(self).holding(to) + amount,
            r is Ok ==> forall|who: u64|
                who != to ==> final(self).holding(who) == old(self).holding(who),
            r is Ok ==> final(self).supply() == old(self).supply() + amount,
    {
        if amount < 0 {
            return Err(TransferError::NegativeAmount);
        }
        let held: i128 = self.holdings.get(to);
        match held.checked_add(amount) {
            Some(sum) => {
                proof {
                    lemma_amount_within_sum(self.holdings@, to);
                }
                self.holdings.set(to, sum);
                Ok(())
            },
            None => Err(TransferError::HoldingOverflow),
        }
    }

    /// Moves `amount` from `from` to `to`, in full or not at all. Refused,
    /// with nothing changed, when the amount is negative, when `from` holds
    /// less, or when the holding of `to` would pass `i128::MAX`.
    pub fn transfer(&mut self, from: u64, to: u64, amount: i128) -> (r: Result<(), TransferError>)
        requires
            old(self).wf(),
        ensures
            final(self).wf(),
            final(self).asset_id() == old(self).asset_id(),
            r == (match old(self).refusal(from, to, amount as int) {
                Some(e) => Err::<(), TransferError>(e),
                None => Ok(()),
            }),
            r is Err ==> *final(self) == *old(self),
            r is Ok ==> forall|who: u64|
                final(self).holding(who) == old(self).holding_after(from, to, amount as int, who),
            r is Ok ==> final(self).supply() == old(self).supply(),
    {
        if amount < 0 {
            return Err(TransferError::NegativeAmount);
        }
        let paying: i128 = self.holdings.get(from);
        if paying < amount {
            return Err(TransferError::InsufficientFunds);
        }
        if from == to {
            return Ok(());
        }
        let receiving: i128 = self.holdings.get(to);
        match receiving.checked_add(amount) {
            Some(sum) => {
                proof {
                    lemma_amount_within_sum(self.holdings@, to);
                }
                self.holdings.set(from, paying - amount);
                self.holdings.set(to, sum);
                Ok(())
            },
            None => Err(TransferError::HoldingOverflow),
        }
    }
}

} // verus!
