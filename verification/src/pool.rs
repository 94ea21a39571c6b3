//! The lending pool: configuration, ledger and the depositors' balances,
//! with the operations that move them.
//!
//! Every operation that changes anything names the identity that has to
//! have authorized the call, and is handed the identity that did (`signer`).
//! Every operation either goes through in full or is refused with nothing
//! changed, in the pool and in the asset ledger alike.

use vstd::prelude::*;
use crate::asset::AssetLedger;
use crate::book::{lemma_amount_within_sum, none_negative, AccountBook, Entry};
use crate::error::PoolError;
use crate::ledger::PoolLedger;
use crate::state::PoolState;

verus! {

/// What a pool is set up with. It never changes afterwards.
#[derive(Clone, Copy, Debug, PartialEq, Eq, Structural)]
pub struct PoolConfig {
    /// The borrower: who may release the funds and who repays them.
    pub admin: u64,
    /// The asset that the pool accepts.
    pub asset: u64,
    /// The amount the pool hopes to raise. Informational: not a cap.
    pub target_amount: i128,
    /// The promised yield in basis points. Informational.
    pub yield_rate: u32,
}

/// One pool: where it is held, how it was set up, its ledger and what each
/// depositor has in it.
pub struct LendingPool {
    address: u64,
    config: Option<PoolConfig>,
    ledger: PoolLedger,
    balances: AccountBook,
}

impl LendingPool {
    /// The account under which the asset ledger keeps what the pool holds.
    pub closed spec fn custody_account(&self) -> u64 {
        self.address
    }

    /// The configuration; `None` until the pool is initialized.
    pub closed spec fn config(&self) -> Option<PoolConfig> {
        self.config
    }

    /// The lifecycle state and the recorded total.
    pub closed spec fn ledger(&self) -> PoolLedger {
        self.ledger
    }

    /// The book of the depositors' balances.
    pub closed spec fn book(&self) -> AccountBook {
        self.balances
    }

    /// The principal recorded for `depositor`; zero for one who never
    /// deposited or has withdrawn.
    pub open spec fn balance_of(&self, depositor: u64) -> i128 {
        self.book().amount_of(depositor)
    }

    /// The sum of all depositors' balances.
    pub open spec fn principal(&self) -> int {
        self.book().total()
    }

    /// What the asset ledger holds for the pool.
    pub open spec fn custody(&self, asset: &AssetLedger) -> i128 {
        asset.holding(self.custody_account())
    }

    /// The records are in order. Each depositor has one balance and none is
    /// negative. Until the funds are repaid the recorded total is the sum of
    /// the balances; afterwards the total stays while balances are claimed.
    /// Funds that were released were not nothing. A pool without
    /// configuration has the ledger it will start with.
    pub open spec fn wf(&self) -> bool {
        &&& self.book().wf()
        &&& none_negative(self.book()@)
        &&& match self.ledger().state {
            PoolState::Open => self.principal() == self.ledger().total_deposited,
            PoolState::Active => 0 < self.principal() == self.ledger().total_deposited,
            PoolState::Repaid => self.principal() <= self.ledger().total_deposited
                && 0 < self.ledger().total_deposited,
        }
        &&& self.config() is None ==> self.ledger() == PoolLedger::fresh()
    }

    /// Whether the asset ledger is the one of the asset that the pool was
    /// set up with, and would move `amount` from `from` to `to`.
    pub open spec fn can_move(
        &self,
        asset: &AssetLedger,
        from: u64,
        to: u64,
        amount: i128,
    ) -> bool {
        self.config() matches Some(c) && asset.asset_id() == c.asset && asset.can_transfer(
            from,
            to,
            amount as int,
        )
    }

    /// What [`LendingPool::deposit`] answers.
    pub open spec fn deposit_outcome(
        &self,
        asset: &AssetLedger,
        signer: u64,
        from: u64,
        amount: i128,
    ) -> Result<(), PoolError> {
        if signer != from {
            Err(PoolError::Unauthorized)
        } else if self.config() is None {
            Err(PoolError::Uninitialized)
        } else {
            match self.ledger().credited(self.balance_of(from), amount) {
                Err(e) => Err(e),
                Ok(_) => if self.can_move(asset, from, self.custody_account(), amount) {
                    Ok(())
                } else {
                    Err(PoolError::TransferFailed)
                },
            }
        }
    }

    /// How a deposit of `amount` by `from` that went through leaves the pool
    /// and the asset ledger: the amount has moved into the pool's custody,
    /// the depositor's balance and the recorded total have grown by it, and
    /// no other balance or holding has moved.
    pub open spec fn deposited(
        &self,
        asset: &AssetLedger,
        after: &LendingPool,
        asset_after: &AssetLedger,
        from: u64,
        amount: i128,
    ) -> bool {
        &&& self.ledger().credited(self.balance_of(from), amount) matches Ok(credit)
        &&& amount >= 0
        &&& after.custody_account() == self.custody_account()
        &&& after.config() == self.config()
        &&& after.ledger() == credit.ledger
        &&& after.balance_of(from) == self.balance_of(from) + amount
        &&& forall|d: u64| d != from ==> after.balance_of(d) == self.balance_of(d)
        &&& after.principal() == self.principal() + amount
        &&& asset_after.asset_id() == asset.asset_id()
        &&& forall|who: u64| #[trigger]
            asset_after.holding(who) == asset.holding_after(
                from,
                self.custody_account(),
                amount as int,
                who,
            )
    }

    /// What [`LendingPool::withdraw`] answers.
    pub open spec fn withdraw_outcome(&self, asset: &AssetLedger, signer: u64, to: u64) -> Result<
        (),
        PoolError,
    > {
        if signer != to {
            Err(PoolError::Unauthorized)
        } else if self.config() is None {
            Err(PoolError::Uninitialized)
        } else {
            match self.ledger().settled(self.balance_of(to), self.custody(asset)) {
                Err(e) => Err(e),
                Ok(payout) => if self.can_move(asset, self.custody_account(), to, payout.amount) {
                    Ok(())
                } else {
                    Err(PoolError::TransferFailed)
                },
            }
        }
    }

    /// How a withdrawal by `to` that went through leaves the pool and the
    /// asset ledger: the depositor is paid what the ledger's rule awards, the
    /// balance is zero, and no other balance or holding has moved.
    pub open spec fn withdrawn(
        &self,
        asset: &AssetLedger,
        after: &LendingPool,
        asset_after: &AssetLedger,
        to: u64,
    ) -> bool {
        &&& self.ledger().settled(self.balance_of(to), self.custody(asset)) matches Ok(payout)
        &&& after.custody_account() == self.custody_account()
        &&& after.config() == self.config()
        &&& after.ledger() == payout.ledger
        &&& after.balance_of(to) == 0
        &&& forall|d: u64| d != to ==> after.balance_of(d) == self.balance_of(d)
        &&& after.principal() == self.principal() - self.balance_of(to)
        &&& asset_after.asset_id() == asset.asset_id()
        &&& forall|who: u64| #[trigger]
            asset_after.holding(who) == asset.holding_after(
                self.custody_account(),
                to,
                payout.amount as int,
                who,
            )
    }

    /// What [`LendingPool::fund_loan`] answers.
    pub open spec fn fund_loan_outcome(&self, asset: &AssetLedger, signer: u64) -> Result<
        (),
        PoolError,
    > {
        match self.config() {
            None => Err(PoolError::Uninitialized),
            Some(c) => if signer != c.admin {
                Err(PoolError::Unauthorized)
            } else {
                match self.ledger().released() {
                    Err(e) => Err(e),
                    Ok(payout) => if self.can_move(
                        asset,
                        self.custody_account(),
                        c.admin,
                        payout.amount,
                    ) {
                        Ok(())
                    } else {
                        Err(PoolError::TransferFailed)
                    },
                }
            },
        }
    }

    /// How a release of the funds that went through leaves the pool and the
    /// asset ledger: the recorded total has moved from the pool's custody to
    /// the borrower, the pool is `Active`, and every balance is as it was.
    pub open spec fn funded(
        &self,
        asset: &AssetLedger,
        after: &LendingPool,
        asset_after: &AssetLedger,
    ) -> bool {
        &&& self.config() matches Some(c)
        &&& self.ledger().released() matches Ok(payout)
        &&& after.custody_account() == self.custody_account()
        &&& after.config() == self.config()
        &&& after.ledger() == payout.ledger
        &&& after.book() == self.book()
        &&& asset_after.asset_id() == asset.asset_id()
        &&& forall|who: u64| #[trigger]
            asset_after.holding(who) == asset.holding_after(
                self.custody_account(),
                c.admin,
                payout.amount as int,
                who,
            )
    }

    /// What [`LendingPool::repay_loan`] answers.
    pub open spec fn repay_loan_outcome(
        &self,
        asset: &AssetLedger,
        signer: u64,
        amount: i128,
    ) -> Result<(), PoolError> {
        match self.config() {
            None => Err(PoolError::Uninitialized),
            Some(c) => if signer != c.admin {
                Err(PoolError::Unauthorized)
            } else if self.ledger().state != PoolState::Active {
                Err(PoolError::InvalidState)
            } else if self.can_move(asset, c.admin, self.custody_account(), amount) {
                Ok(())
            } else {
                Err(PoolError::TransferFailed)
            },
        }
    }

    /// How a repayment of `amount` that went through leaves the pool and the
    /// asset ledger: the amount has moved from the borrower into the pool's
    /// custody; if the custody now covers the recorded total the pool is
    /// `Repaid`, and otherwise it is as it was. Every balance is as it was.
    pub open spec fn repaid(
        &self,
        asset: &AssetLedger,
        after: &LendingPool,
        asset_after: &AssetLedger,
        amount: i128,
    ) -> bool {
        &&& self.config() matches Some(c)
        &&& after.custody_account() == self.custody_account()
        &&& after.config() == self.config()
        &&& self.ledger().repaid(self.custody(asset_after)) == Ok::<PoolLedger, PoolError>(
            after.ledger(),
        )
        &&& after.book() == self.book()
        &&& asset_after.asset_id() == asset.asset_id()
        &&& forall|who: u64| #[trigger]
            asset_after.holding(who) == asset.holding_after(
                c.admin,
                self.custody_account(),
                amount as int,
                who,
            )
    }

    /// What [`LendingPool::get_pool_details`] reports: the recorded total,
    /// the target, the yield rate and the number of the state, with zero for
    /// what has not been set.
    pub open spec fn details(&self) -> (i128, i128, u32, u32) {
        (
            self.ledger().total_deposited,
            match self.config() {
                Some(c) => c.target_amount,
                None => 0,
            },
            match self.config() {
                Some(c) => c.yield_rate,
                None => 0,
            },
            self.ledger().state.code(),
        )
    }

    /// A pool held under the account `address`, not yet initialized.
    pub fn new(address: u64) -> (pool: LendingPool)
        ensures
            pool.wf(),
            pool.custody_account() == address,
            pool.config() is None,
            pool.ledger() == PoolLedger::fresh(),
            pool.book()@ == Seq::<Entry>::empty(),
    {
        LendingPool {
            address,
            config: None,
            ledger: PoolLedger::opened(),
            balances: AccountBook::new(),
        }
    }

    /// The account under which the asset ledger keeps what the pool holds.
    pub fn address(&self) -> (address: u64)
        ensures
            address == self.custody_account(),
    {
        self.address
    }

    /// Sets the pool up: records the configuration and opens the ledger with
    /// nothing deposited. This can be done once: a pool that has a
    /// configuration refuses with `AlreadyInitialized`.
    pub fn initialize(&mut self, admin: u64, token: u64, target: i128, yield_rate: u32) -> (r:
        Result<(), PoolError>)
        requires
            old(self).wf(),
        ensures
            final(self).wf(),
            old(self).config() is Some ==> r == Err::<(), PoolError>(
                PoolError::AlreadyInitialized,
            ) && *final(self) == *old(self),
            old(self).config() is None ==> r == Ok::<(), PoolError>(()),
            r is Ok ==> final(self).config() == Some(
                PoolConfig { admin, asset: token, target_amount: target, yield_rate },
            ),
            r is Ok ==> final(self).ledger() == PoolLedger::fresh(),
            r is Ok ==> final(self).book() == old(self).book(),
            r is Ok ==> final(self).custody_account() == old(self).custody_account(),
    {
        match PoolLedger::set_up(self.config.is_some()) {
            Ok(ledger) => {
                self.config = Some(
                    PoolConfig { admin, asset: token, target_amount: target, yield_rate },
                );
                self.ledger = ledger;
                Ok(())
            },
            Err(e) => Err(e),
        }
    }

    /// Takes `amount` of the asset from `from` into the pool's custody and
    /// adds it to the depositor's balance and to the recorded total.
    ///
    /// Refused with `Unauthorized` unless `from` signed; with
    /// `Uninitialized` before the pool is set up; with `InvalidState` unless
    /// the pool is `Open`; with `Overflow` where the recorded total would
    /// pass `i128::MAX`; with `TransferFailed` where the asset ledger does
    /// not move the amount, as it never does for a negative one. An amount
    /// of zero is taken: it changes no figure.
    pub fn deposit(&mut self, asset: &mut AssetLedger, signer: u64, from: u64, amount: i128) -> (r:
        Result<(), PoolError>)
        requires
            old(self).wf(),
            old(asset).wf(),
        ensures
            final(self).wf(),
            final(asset).wf(),
            r == old(self).deposit_outcome(old(asset), signer, from, amount),
            r is Err ==> *final(self) == *old(self) && *final(asset) == *old(asset),
            r is Ok ==> old(self).deposited(old(asset), final(self), final(asset), from, amount),
    {
        if signer != from {
            return Err(PoolError::Unauthorized);
        }
        let config = match self.config {
            Some(c) => c,
            None => {
                return Err(PoolError::Uninitialized);
            },
        };
        let balance: i128 = self.balances.get(from);
        let credit = match self.ledger.credit(balance, amount) {
            Ok(c) => c,
            Err(e) => {
                return Err(e);
            },
        };
        if asset.id() != config.asset {
            return Err(PoolError::TransferFailed);
        }
        match asset.transfer(from, self.address, amount) {
            Ok(()) => {},
            Err(_) => {
                return Err(PoolError::TransferFailed);
            },
        }
        proof {
            lemma_amount_within_sum(self.balances@, from);
        }
        self.ledger = credit.ledger;
        self.balances.set(from, credit.balance);
        Ok(())
    }

    /// Pays `to` out and sets their balance to zero.
    ///
    /// While the pool is `Open` this is a refund of the whole balance, and
    /// the recorded total falls by it. Once the pool is `Repaid` it is the
    /// depositor's share of the pot, rounded down. The pot is what the pool
    /// holds at the time of the claim; the recorded total stays as it is, as
    /// the denominator of every share.
    ///
    /// Refused with `Unauthorized` unless `to` signed; with `Uninitialized`
    /// before the pool is set up; with `NoBalance` where no principal is
    /// recorded for `to`; with `InvalidState` while the pool is `Active`;
    /// with `TransferFailed` where the asset ledger does not pay. The
    /// ledger's rule also knows `DivisionByZero` and `Overflow`; on records
    /// that are in order neither arises.
    pub fn withdraw(&mut self, asset: &mut AssetLedger, signer: u64, to: u64) -> (r: Result<
        (),
        PoolError,
    >)
        requires
            old(self).wf(),
            old(asset).wf(),
        ensures
            final(self).wf(),
            final(asset).wf(),
            r == old(self).withdraw_outcome(old(asset), signer, to),
            r is Err ==> *final(self) == *old(self) && *final(asset) == *old(asset),
            r is Ok ==> old(self).withdrawn(old(asset), final(self), final(asset), to),
    {
        if signer != to {
            return Err(PoolError::Unauthorized);
        }
        let config = match self.config {
            Some(c) => c,
            None => {
                return Err(PoolError::Uninitialized);
            },
        };
        let balance: i128 = self.balances.get(to);
        let custody: i128 = asset.balance_of(self.address);
        let payout = match self.ledger.settle(balance, custody) {
            Ok(p) => p,
            Err(e) => {
                return Err(e);
            },
        };
        if asset.id() != config.asset {
            return Err(PoolError::TransferFailed);
        }
        match asset.transfer(self.address, to, payout.amount) {
            Ok(()) => {},
            Err(_) => {
                return Err(PoolError::TransferFailed);
            },
        }
        self.ledger = payout.ledger;
        self.balances.set(to, 0);
        Ok(())
    }

    /// Releases the pooled principal to the borrower: the whole recorded
    /// total leaves the pool's custody, and the pool becomes `Active`.
    ///
    /// Refused with `Uninitialized` before the pool is set up; with
    /// `Unauthorized` unless the borrower signed; with `InvalidState` unless
    /// the pool is `Open`; with `NoFunds` where nothing has been deposited;
    /// with `TransferFailed` where the asset ledger does not pay.
    pub fn fund_loan(&mut self, asset: &mut AssetLedger, signer: u64) -> (r: Result<(), PoolError>)
        requires
            old(self).wf(),
            old(asset).wf(),
        ensures
            final(self).wf(),
            final(asset).wf(),
            r == old(self).fund_loan_outcome(old(asset), signer),
            r is Err ==> *final(self) == *old(self) && *final(asset) == *old(asset),
            r is Ok ==> old(self).funded(old(asset), final(self), final(asset)),
    {
        let config = match self.config {
            Some(c) => c,
            None => {
                return Err(PoolError::Uninitialized);
            },
        };
        if signer != config.admin {
            return Err(PoolError::Unauthorized);
        }
        let payout = match self.ledger.release() {
            Ok(p) => p,
            Err(e) => {
                return Err(e);
            },
        };
        if asset.id() != config.asset {
            return Err(PoolError::TransferFailed);
        }
        match asset.transfer(self.address, config.admin, payout.amount) {
            Ok(()) => {},
            Err(_) => {
                return Err(PoolError::TransferFailed);
            },
        }
        self.ledger = payout.ledger;
        Ok(())
    }

    /// Takes a repayment of `amount` from the borrower into the pool's
    /// custody. If the custody then covers the recorded total, the pool
    /// becomes `Repaid`; otherwise it stays `Active` and more may follow.
    ///
    /// Refused with `Uninitialized` before the pool is set up; with
    /// `Unauthorized` unless the borrower signed; with `InvalidState` unless
    /// the pool is `Active`; with `TransferFailed` where the asset ledger
    /// does not move the amount.
    pub fn repay_loan(&mut self, asset: &mut AssetLedger, signer: u64, amount: i128) -> (r: Result<
        (),
        PoolError,
    >)
        requires
            old(self).wf(),
            old(asset).wf(),
        ensures
            final(self).wf(),
            final(asset).wf(),
            r == old(self).repay_loan_outcome(old(asset), signer, amount),
            r is Err ==> *final(self) == *old(self) && *final(asset) == *old(asset),
            r is Ok ==> old(self).repaid(old(asset), final(self), final(asset), amount),
    {
        let config = match self.config {
            Some(c) => c,
            None => {
                return Err(PoolError::Uninitialized);
            },
        };
        if signer != config.admin {
            return Err(PoolError::Unauthorized);
        }
        match self.ledger.begin_repayment() {
            Ok(()) => {},
            Err(e) => {
                return Err(e);
            },
        }
        if asset.id() != config.asset {
            return Err(PoolError::TransferFailed);
        }
        match asset.transfer(config.admin, self.address, amount) {
            Ok(()) => {},
            Err(_) => {
                return Err(PoolError::TransferFailed);
            },
        }
        let custody: i128 = asset.balance_of(self.address);
        match self.ledger.complete_repayment(custody) {
            Ok(ledger) => {
                self.ledger = ledger;
            },
            Err(_) => {},
        }
        Ok(())
    }

    /// Reports the lifecycle state as a number: 0 for `Open`, 1 for
    /// `Active`, 2 for `Repaid`. A pool that is not set up reports `Open`.
    pub fn get_state(&self) -> (code: u32)
        ensures
            code == self.ledger().state.code(),
    {
        self.ledger.state.as_u32()
    }

    /// Reports the principal recorded for `user`; zero for one who never
    /// deposited or has withdrawn.
    pub fn get_balance(&self, user: u64) -> (balance: i128)
        ensures
            balance == self.balance_of(user),
    {
        self.balances.get(user)
    }

    /// Reports the recorded total, the target, the yield rate and the
    /// number of the state, with zero for what has not been set.
    pub fn get_pool_details(&self) -> (details: (i128, i128, u32, u32))
        ensures
            details == self.details(),
    {
        let (target, rate) = match self.config {
            Some(c) => (c.target_amount, c.yield_rate),
            None => (0, 0),
        };
        (self.ledger.total_deposited, target, rate, self.get_state())
    }
}

} // verus!
