//! What holds of the pool whatever is done with it.
//!
//! Each law is a proof about the outcomes and effects that the operations
//! of [`LendingPool`] promise, so it holds of every call and every sequence
//! of calls.

use vstd::prelude::*;
use vstd::arithmetic::div_mod::{
    lemma_div_by_multiple, lemma_div_is_ordered, lemma_fundamental_div_mod,
    lemma_fundamental_div_mod_converse,
};
use crate::asset::AssetLedger;
use crate::book::{lemma_amount_within_sum, none_negative, sum_of, Entry};
use crate::error::{PoolError, TransferError};
use crate::pool::LendingPool;
use crate::settlement::{lemma_share_bounds, share_of};
use crate::state::PoolState;

verus! {

/// The books balance: the recorded total is the sum of the balances, and
/// the pool's custody holds exactly the recorded total.
pub open spec fn conserved(pool: &LendingPool, asset: &AssetLedger) -> bool {
    &&& pool.ledger().total_deposited == pool.principal()
    &&& asset.holding(pool.custody_account()) == pool.ledger().total_deposited
}

/// One deposit or one withdrawal that went through, by a depositor who is
/// not the pool's own custody account.
pub open spec fn open_step(
    before: (LendingPool, AssetLedger),
    after: (LendingPool, AssetLedger),
) -> bool {
    ||| exists|who: u64, amount: i128|
        who != before.0.custody_account() && #[trigger] before.0.deposited(
            &before.1,
            &after.0,
            &after.1,
            who,
            amount,
        )
    ||| exists|who: u64|
        who != before.0.custody_account() && #[trigger] before.0.withdrawn(
            &before.1,
            &after.0,
            &after.1,
            who,
        )
}

/// Conservation, one deposit at a time: a deposit into an `Open` pool whose
/// books balance leaves an `Open` pool whose books balance.
pub proof fn lemma_deposit_conserves(
    pool: LendingPool,
    asset: AssetLedger,
    after: LendingPool,
    asset_after: AssetLedger,
    from: u64,
    amount: i128,
)
    requires
        pool.ledger().state == PoolState::Open,
        conserved(&pool, &asset),
        from != pool.custody_account(),
        pool.deposited(&asset, &after, &asset_after, from, amount),
    ensures
        after.ledger().state == PoolState::Open,
        conserved(&after, &asset_after),
{
}

/// Conservation, one withdrawal at a time: a withdrawal from an `Open` pool
/// whose books balance leaves an `Open` pool whose books balance.
pub proof fn lemma_withdraw_conserves(
    pool: LendingPool,
    asset: AssetLedger,
    after: LendingPool,
    asset_after: AssetLedger,
    to: u64,
)
    requires
        pool.ledger().state == PoolState::Open,
        conserved(&pool, &asset),
        to != pool.custody_account(),
        pool.withdrawn(&asset, &after, &asset_after, to),
    ensures
        after.ledger().state == PoolState::Open,
        conserved(&after, &asset_after),
{
}

/// Conservation: from an `Open` pool whose books balance, every sequence of
/// deposits and withdrawals leads only through `Open` pools whose books
/// balance. `trace` is the pool and the asset ledger before the first step
/// and after each one.
pub proof fn lemma_conservation(trace: Seq<(LendingPool, AssetLedger)>, at: int)
    requires
        0 <= at < trace.len(),
        trace[0].0.ledger().state == PoolState::Open,
        conserved(&trace[0].0, &trace[0].1),
        forall|i: int| 0 < i < trace.len() ==> open_step(trace[i - 1], #[trigger] trace[i]),
    ensures
        trace[at].0.ledger().state == PoolState::Open,
        conserved(&trace[at].0, &trace[at].1),
    decreases at,
{
    if at > 0 {
        lemma_conservation(trace, at - 1);
    }
}

/// Authorization: a deposit or a withdrawal that the named depositor did
/// not sign is refused as `Unauthorized`; a release or a repayment that the
/// borrower did not sign is refused, as `Unauthorized` once the pool has a
/// borrower.
pub proof fn lemma_authorization(
    pool: LendingPool,
    asset: AssetLedger,
    signer: u64,
    who: u64,
    amount: i128,
)
    ensures
        signer != who ==> pool.deposit_outcome(&asset, signer, who, amount) == Err::<
            (),
            PoolError,
        >(PoolError::Unauthorized),
        signer != who ==> pool.withdraw_outcome(&asset, signer, who) == Err::<(), PoolError>(
            PoolError::Unauthorized,
        ),
        pool.config() matches Some(c) && signer != c.admin ==> pool.fund_loan_outcome(
            &asset,
            signer,
        ) == Err::<(), PoolError>(PoolError::Unauthorized) && pool.repay_loan_outcome(
            &asset,
            signer,
            amount,
        ) == Err::<(), PoolError>(PoolError::Unauthorized),
        pool.config() is None ==> pool.fund_loan_outcome(&asset, signer) is Err
            && pool.repay_loan_outcome(&asset, signer, amount) is Err,
{
}

/// State legality: no deposit and no release outside `Open`, no repayment
/// outside `Active`, no withdrawal while `Active`. Where the call is signed
/// as it has to be and the pool is set up, the refusal is `InvalidState`;
/// for a withdrawal, where there is also a balance to withdraw.
pub proof fn lemma_state_legality(
    pool: LendingPool,
    asset: AssetLedger,
    signer: u64,
    who: u64,
    amount: i128,
)
    ensures
        pool.ledger().state != PoolState::Open ==> pool.deposit_outcome(
            &asset,
            signer,
            who,
            amount,
        ) is Err && pool.fund_loan_outcome(&asset, signer) is Err,
        pool.ledger().state != PoolState::Active ==> pool.repay_loan_outcome(
            &asset,
            signer,
            amount,
        ) is Err,
        pool.ledger().state == PoolState::Active ==> pool.withdraw_outcome(&asset, signer, who)
            is Err,
        pool.ledger().state != PoolState::Open && signer == who && pool.config() is Some
            ==> pool.deposit_outcome(&asset, signer, who, amount) == Err::<(), PoolError>(
            PoolError::InvalidState,
        ),
        pool.config() matches Some(c) && signer == c.admin && pool.ledger().state
            != PoolState::Open ==> pool.fund_loan_outcome(&asset, signer) == Err::<(), PoolError>(
            PoolError::InvalidState,
        ),
        pool.config() matches Some(c) && signer == c.admin && pool.ledger().state
            != PoolState::Active ==> pool.repay_loan_outcome(&asset, signer, amount) == Err::<
            (),
            PoolError,
        >(PoolError::InvalidState),
        pool.ledger().state == PoolState::Active && signer == who && pool.config() is Some
            && pool.balance_of(who) > 0 ==> pool.withdraw_outcome(&asset, signer, who) == Err::<
            (),
            PoolError,
        >(PoolError::InvalidState),
{
}

/// The lifecycle only moves forward: a deposit or a withdrawal leaves the
/// state as it is, a release takes `Open` to `Active`, a repayment takes
/// `Active` to `Active` or `Repaid`. So nothing leaves `Repaid`.
pub proof fn lemma_lifecycle(
    pool: LendingPool,
    asset: AssetLedger,
    after: LendingPool,
    asset_after: AssetLedger,
    who: u64,
    amount: i128,
)
    ensures
        pool.deposited(&asset, &after, &asset_after, who, amount) ==> pool.ledger().state
            == PoolState::Open && after.ledger().state == PoolState::Open,
        pool.withdrawn(&asset, &after, &asset_after, who) ==> pool.ledger().state
            != PoolState::Active && after.ledger().state == pool.ledger().state,
        pool.funded(&asset, &after, &asset_after) ==> pool.ledger().state == PoolState::Open
            && after.ledger().state == PoolState::Active,
        pool.repaid(&asset, &after, &asset_after, amount) ==> pool.ledger().state
            == PoolState::Active && after.ledger().state != PoolState::Open,
{
}

/// Withdrawing empties the balance: after a withdrawal that went through
/// the depositor's balance is exactly zero, and a second withdrawal right
/// after it is refused with `NoBalance`.
pub proof fn lemma_second_withdrawal_finds_nothing(
    pool: LendingPool,
    asset: AssetLedger,
    after: LendingPool,
    asset_after: AssetLedger,
    to: u64,
)
    requires
        pool.withdraw_outcome(&asset, to, to) is Ok,
        pool.withdrawn(&asset, &after, &asset_after, to),
    ensures
        after.balance_of(to) == 0,
        after.withdraw_outcome(&asset_after, to, to) == Err::<(), PoolError>(PoolError::NoBalance),
{
}

/// A claim can always be computed and paid: on a pool and an asset ledger
/// whose records are in order, no withdrawal is refused with
/// `DivisionByZero` or with `Overflow`. What is paid is never negative; in a
/// `Repaid` pool it is no more than the pool holds, so that the asset
/// ledger has no reason to refuse it but the limit of the receiving
/// account; and where the pool holds at least the recorded total, it is no
/// less than the depositor's balance.
pub proof fn lemma_claims_can_be_computed(pool: LendingPool, asset: AssetLedger, to: u64)
    requires
        pool.wf(),
        asset.wf(),
    ensures
        match pool.ledger().settled(pool.balance_of(to), pool.custody(&asset)) {
            Ok(payout) => {
                &&& 0 <= payout.amount
                &&& pool.ledger().state == PoolState::Repaid ==> {
                    &&& payout.amount <= pool.custody(&asset)
                    &&& pool.custody(&asset) >= pool.ledger().total_deposited ==> payout.amount
                        >= pool.balance_of(to)
                    &&& asset.refusal(pool.custody_account(), to, payout.amount as int) is None
                        || asset.refusal(pool.custody_account(), to, payout.amount as int) == Some(
                        TransferError::HoldingOverflow,
                    )
                }
            },
            Err(e) => e == PoolError::NoBalance || e == PoolError::InvalidState,
        },
{
    lemma_amount_within_sum(pool.book()@, to);
    lemma_amount_within_sum(asset.book()@, pool.custody_account());
    if pool.balance_of(to) > 0 && pool.ledger().state == PoolState::Repaid {
        lemma_share_bounds(
            pool.balance_of(to) as int,
            pool.custody(&asset) as int,
            pool.ledger().total_deposited as int,
        );
    }
}

/// Proportional fairness of the rule: out of the same pot and total, twice
/// the balance claims twice the share, or one unit more where rounding down
/// cost the smaller share more than half a unit.
pub proof fn lemma_double_balance_double_share(balance: int, pot: int, total: int)
    requires
        0 <= balance,
        0 <= pot,
        0 < total,
    ensures
        0 <= share_of(2 * balance, pot, total) - 2 * share_of(balance, pot, total) <= 1,
{
    let x: int = balance * pot;
    assert((2 * balance) * pot == 2 * x) by (nonlinear_arith)
        requires
            x == balance * pot,
    ;
    let q: int = x / total;
    let r: int = x % total;
    lemma_fundamental_div_mod(x, total);
    let carry: int = if 2 * r >= total {
        1
    } else {
        0
    };
    assert(2 * x == (2 * q + carry) * total + (2 * r - carry * total)) by (nonlinear_arith)
        requires
            x == total * q + r,
            carry == 0 || carry == 1,
    ;
    lemma_fundamental_div_mod_converse(2 * x, total, 2 * q + carry, 2 * r - carry * total);
}

/// Proportional fairness in a repaid pool: of two depositors of whom the
/// first has twice the balance of the second, the first can claim twice
/// what the second can claim, or one unit more. Both claims are measured at
/// the same moment, against what the pool holds then.
pub proof fn lemma_fair_claims(pool: LendingPool, asset: AssetLedger, first: u64, second: u64)
    requires
        pool.wf(),
        asset.wf(),
        pool.ledger().state == PoolState::Repaid,
        pool.balance_of(second) > 0,
        pool.balance_of(first) == 2 * pool.balance_of(second),
    ensures
        pool.ledger().settled(pool.balance_of(first), pool.custody(&asset)) is Ok,
        pool.ledger().settled(pool.balance_of(second), pool.custody(&asset)) is Ok,
        0 <= pool.ledger().settled(pool.balance_of(first), pool.custody(&asset))->Ok_0.amount - 2
            * pool.ledger().settled(pool.balance_of(second), pool.custody(&asset))->Ok_0.amount
            <= 1,
{
    lemma_claims_can_be_computed(pool, asset, first);
    lemma_double_balance_double_share(
        pool.balance_of(second) as int,
        pool.custody(&asset) as int,
        pool.ledger().total_deposited as int,
    );
}

/// The shares that the lines of a book claim out of `pot`, added up.
pub open spec fn shares_of(entries: Seq<Entry>, pot: int, total: int) -> int
    decreases entries.len(),
{
    if entries.len() == 0 {
        0
    } else {
        shares_of(entries.drop_last(), pot, total) + share_of(
            entries.last().amount as int,
            pot,
            total,
        )
    }
}

/// Rounding down never shares out more than the pot: the shares of
/// balances that together stay within the total add up to no more than the
/// share of their sum, and that to no more than the pot.
pub proof fn lemma_shares_within_pot(entries: Seq<Entry>, pot: int, total: int)
    requires
        none_negative(entries),
        sum_of(entries) <= total,
        0 <= pot,
        0 < total,
    ensures
        0 <= shares_of(entries, pot, total) <= share_of(sum_of(entries), pot, total) <= pot,
        0 <= sum_of(entries),
    decreases entries.len(),
{
    if entries.len() > 0 {
        let rest = entries.drop_last();
        let last: int = entries.last().amount as int;
        lemma_shares_within_pot(rest, pot, total);
        lemma_share_bounds(sum_of(entries), pot, total);
        let a: int = sum_of(rest) * pot;
        let b: int = last * pot;
        assert(sum_of(entries) * pot == a + b) by (nonlinear_arith)
            requires
                sum_of(entries) == sum_of(rest) + last,
                a == sum_of(rest) * pot,
                b == last * pot,
        ;
        lemma_fundamental_div_mod(a, total);
        lemma_fundamental_div_mod(b, total);
        assert((a / total + b / total) * total == total * (a / total) + total * (b / total))
            by (nonlinear_arith);
        lemma_div_is_ordered((a / total + b / total) * total, a + b, total);
        lemma_div_by_multiple(a / total + b / total, total);
    }
}

/// In a repaid pool the claims of all depositors, measured against one and
/// the same pot, together stay within that pot: rounding down leaves a
/// remainder and never a shortfall.
pub proof fn lemma_claims_within_pot(pool: LendingPool, pot: int)
    requires
        pool.wf(),
        pool.ledger().state == PoolState::Repaid,
        0 <= pot,
    ensures
        0 <= shares_of(pool.book()@, pot, pool.ledger().total_deposited as int) <= pot,
{
    lemma_shares_within_pot(pool.book()@, pot, pool.ledger().total_deposited as int);
}

} // verus!
