//! A book of amounts, one entry per account.
//!
//! The same book serves as the pool's record of each depositor's principal
//! and as an asset ledger's record of each account's holding. An account
//! without an entry stands at zero; an entry is never removed, only set.

use vstd::prelude::*;

verus! {

/// One line of a book: an account and the amount recorded for it.
#[derive(Clone, Copy, Debug, PartialEq, Eq, Structural)]
pub struct Entry {
    /// The account that the line belongs to.
    pub owner: u64,
    /// The amount recorded for it.
    pub amount: i128,
}

/// No account has two lines.
pub open spec fn distinct_owners(entries: Seq<Entry>) -> bool {
    forall|i: int, j: int|
        0 <= i < j < entries.len() ==> (#[trigger] entries[i]).owner != (
        #[trigger] entries[j]).owner
}

/// The amount recorded for `owner`: that of its line, or zero without one.
pub open spec fn amount_in(entries: Seq<Entry>, owner: u64) -> i128
    decreases entries.len(),
{
    if entries.len() == 0 {
        0
    } else if entries.last().owner == owner {
        entries.last().amount
    } else {
        amount_in(entries.drop_last(), owner)
    }
}

/// The sum of the amounts on all lines.
pub open spec fn sum_of(entries: Seq<Entry>) -> int
    decreases entries.len(),
{
    if entries.len() == 0 {
        0
    } else {
        sum_of(entries.drop_last()) + entries.last().amount
    }
}

/// Every line holds an amount that is not negative.
pub open spec fn none_negative(entries: Seq<Entry>) -> bool {
    forall|i: int| 0 <= i < entries.len() ==> (#[trigger] entries[i]).amount >= 0
}

/// An account that has no line stands at zero.
pub proof fn lemma_absent_is_zero(entries: Seq<Entry>, owner: u64)
    requires
        forall|i: int| 0 <= i < entries.len() ==> (#[trigger] entries[i]).owner != owner,
    ensures
        amount_in(entries, owner) == 0,
    decreases entries.len(),
{
    if entries.len() > 0 {
        lemma_absent_is_zero(entries.drop_last(), owner);
    }
}

/// The amount of an account is the amount on its last line.
pub proof fn lemma_amount_at(entries: Seq<Entry>, at: int)
    requires
        0 <= at < entries.len(),
        forall|i: int|
            at < i < entries.len() ==> (#[trigger] entries[i]).owner != entries[at].owner,
    ensures
        amount_in(entries, entries[at].owner) == entries[at].amount,
    decreases entries.len(),
{
    if at < entries.len() - 1 {
        lemma_amount_at(entries.drop_last(), at);
    }
}

/// Where no amount is negative, no account's amount is, and none exceeds
/// the sum of all.
pub proof fn lemma_amount_within_sum(entries: Seq<Entry>, owner: u64)
    requires
        none_negative(entries),
    ensures
        0 <= amount_in(entries, owner) <= sum_of(entries),
    decreases entries.len(),
{
    if entries.len() > 0 {
        lemma_amount_within_sum(entries.drop_last(), owner);
    }
}

/// Writing a new amount on the last line of an account changes that
/// account's amount to it, the sum by the difference, and nothing else.
pub proof fn lemma_rewrite(entries: Seq<Entry>, at: int, amount: i128, other: u64)
    requires
        0 <= at < entries.len(),
        forall|i: int|
            at < i < entries.len() ==> (#[trigger] entries[i]).owner != entries[at].owner,
    ensures
        sum_of(entries.update(at, Entry { owner: entries[at].owner, amount })) == sum_of(entries)
            - entries[at].amount + amount,
        amount_in(entries.update(at, Entry { owner: entries[at].owner, amount }), other) == if other
            == entries[at].owner {
            amount
        } else {
            amount_in(entries, other)
        },
    decreases entries.len(),
{
    let line = Entry { owner: entries[at].owner, amount };
    let after = entries.update(at, line);
    if at == entries.len() - 1 {
        assert(after.drop_last() =~= entries.drop_last());
    } else {
        assert(after.drop_last() =~= entries.drop_last().update(at, line));
        lemma_rewrite(entries.drop_last(), at, amount, other);
    }
}

/// A book of amounts by account.
pub struct AccountBook {
    entries: Vec<Entry>,
}

impl View for AccountBook {
    type V = Seq<Entry>;

    closed spec fn view(&self) -> Seq<Entry> {
        self.entries@
    }
}

impl AccountBook {
    /// The book is in order: no account has two lines.
    pub open spec fn wf(&self) -> bool {
        distinct_owners(self@)
    }

    /// The amount recorded for `owner`, zero where it has no line.
    pub open spec fn amount_of(&self, owner: u64) -> i128 {
        amount_in(self@, owner)
    }

    /// The sum of all recorded amounts.
    pub open spec fn total(&self) -> int {
        sum_of(self@)
    }

    /// A book without lines.
    pub fn new() -> (book: AccountBook)
        ensures
            book@ == Seq::<Entry>::empty(),
            book.wf(),
    {
        AccountBook { entries: Vec::new() }
    }

    /// Where the line of `owner` stands, if it has one.
    fn position(&self, owner: u64) -> (at: Option<usize>)
        ensures
            match at {
                Some(i) => i < self@.len() && self@[i as int].owner == owner && forall|j: int|
                    i < j < self@.len() ==> (#[trigger] self@[j]).owner != owner,
                None => forall|j: int|
                    0 <= j < self@.len() ==> (#[trigger] self@[j]).owner != owner,
            },
    {
        let mut i: usize = self.entries.len();
        while i > 0
            invariant
                i <= self.entries@.len(),
                forall|j: int|
                    i <= j < self.entries@.len() ==> (#[trigger] self.entries@[j]).owner
                        != owner,
            decreases i,
        {
            i = i - 1;
            if self.entries[i].owner == owner {
                return Some(i);
            }
        }
        None
    }

    /// Reads the amount recorded for `owner`; zero where it has no line.
    pub fn get(&self, owner: u64) -> (amount: i128)
        ensures
            amount == self.amount_of(owner),
    {
        match self.position(owner) {
            Some(i) => {
                proof {
                    lemma_amount_at(self@, i as int);
                }
                self.entries[i].amount
            },
            None => {
                proof {
                    lemma_absent_is_zero(self@, owner);
                }
                0
            },
        }
    }

    /// Records `amount` for `owner`, on its line if it has one and on a new
    /// line otherwise. No other account is touched.
    pub fn set(&mut self, owner: u64, amount: i128)
        requires
            old(self).wf(),
        ensures
            final(self).wf(),
            final(self).amount_of(owner) == amount,
            forall|other: u64|
                other != owner ==> final(self).amount_of(other) == old(self).amount_of(other),
            final(self).total() == old(self).total() - old(self).amount_of(owner) + amount,
            none_negative(old(self)@) && amount >= 0 ==> none_negative(final(self)@),
    {
        let ghost before = self@;
        match self.position(owner) {
            Some(i) => {
                proof {
                    lemma_amount_at(before, i as int);
                    assert forall|other: u64| other != owner implies amount_in(
                        before.update(i as int, Entry { owner, amount }),
                        other,
                    ) == amount_in(before, other) by {
                        lemma_rewrite(before, i as int, amount, other);
                    }
                    lemma_rewrite(before, i as int, amount, owner);
                }
                self.entries.set(i, Entry { owner, amount });
            },
            None => {
                proof {
                    lemma_absent_is_zero(before, owner);
                    assert(before.push(Entry { owner, amount }).drop_last() =~= before);
                }
                self.entries.push(Entry { owner, amount });
            },
        }
    }
}

} // verus!
