//! The escrow ledger: what the game holds for each identity.

use vstd::prelude::*;
use crate::commitment::Address;
use crate::error::GameError;
use crate::word::{Word, word_modulus};

verus! {

/// One identity's entry in the ledger.
#[derive(Clone, Copy, Debug, PartialEq, Eq)]
pub struct Account {
    pub owner: Address,
    pub balance: Word,
}

/// The balances held in escrow, one entry for each identity that ever
/// deposited. Entries are never removed, only brought to zero.
#[derive(Debug)]
pub struct Ledger {
    accounts: Vec<Account>,
}

/// What the entries of `s` hold for `who`.
pub open spec fn balance_in(s: Seq<Account>, who: Seq<u8>) -> nat
    decreases s.len(),
{
    if s.len() == 0 {
        0
    } else {
        balance_in(s.drop_last(), who) + if s.last().owner@ == who {
            s.last().balance@
        } else {
            0
        }
    }
}

/// What the entries of `s` hold together.
pub open spec fn sum_of(s: Seq<Account>) -> nat
    decreases s.len(),
{
    if s.len() == 0 {
        0
    } else {
        sum_of(s.drop_last()) + s.last().balance@
    }
}

/// No identity has two entries in `s`.
pub open spec fn distinct_owners(s: Seq<Account>) -> bool {
    forall|i: int, j: int| 0 <= i < j < s.len() ==> s[i].owner@ != s[j].owner@
}

proof fn lemma_absent(s: Seq<Account>, who: Seq<u8>)
    requires
        forall|i: int| 0 <= i < s.len() ==> s[i].owner@ != who,
    ensures
        balance_in(s, who) == 0,
    decreases s.len(),
{
    if s.len() > 0 {
        lemma_absent(s.drop_last(), who);
    }
}

proof fn lemma_present(s: Seq<Account>, i: int)
    requires
        distinct_owners(s),
        0 <= i < s.len(),
    ensures
        balance_in(s, s[i].owner@) == s[i].balance@,
    decreases s.len(),
{
    if i == s.len() - 1 {
        lemma_absent(s.drop_last(), s[i].owner@);
    } else {
        lemma_present(s.drop_last(), i);
    }
}

proof fn lemma_part(s: Seq<Account>, who: Seq<u8>)
    ensures
        balance_in(s, who) <= sum_of(s),
    decreases s.len(),
{
    if s.len() > 0 {
        lemma_part(s.drop_last(), who);
    }
}

proof fn lemma_pair(s: Seq<Account>, a: Seq<u8>, b: Seq<u8>)
    requires
        a != b,
    ensures
        balance_in(s, a) + balance_in(s, b) <= sum_of(s),
    decreases s.len(),
{
    if s.len() > 0 {
        lemma_pair(s.drop_last(), a, b);
    }
}

proof fn lemma_replace(s: Seq<Account>, i: int, a: Account, who: Seq<u8>)
    requires
        0 <= i < s.len(),
        a.owner@ == s[i].owner@,
    ensures
        sum_of(s.update(i, a)) == sum_of(s) - s[i].balance@ + a.balance@,
        who != a.owner@ ==> balance_in(s.update(i, a), who) == balance_in(s, who),
        distinct_owners(s) ==> distinct_owners(s.update(i, a)),
    decreases s.len(),
{
    let t = s.update(i, a);
    if i == s.len() - 1 {
        assert(t.drop_last() =~= s.drop_last());
    } else {
        assert(t.drop_last() =~= s.drop_last().update(i, a));
        lemma_replace(s.drop_last(), i, a, who);
    }
}

proof fn lemma_append(s: Seq<Account>, a: Account, who: Seq<u8>)
    requires
        forall|i: int| 0 <= i < s.len() ==> s[i].owner@ != a.owner@,
    ensures
        sum_of(s.push(a)) == sum_of(s) + a.balance@,
        who != a.owner@ ==> balance_in(s.push(a), who) == balance_in(s, who),
        distinct_owners(s) ==> distinct_owners(s.push(a)),
{
    assert(s.push(a).drop_last() =~= s);
}

impl Ledger {
    /// The entries are consistent: no identity has two.
    pub closed spec fn wf(&self) -> bool {
        distinct_owners(self.accounts@)
    }

    /// What the ledger holds for `who`; zero for an identity it has never seen.
    pub closed spec fn balance_of(&self, who: Seq<u8>) -> nat {
        balance_in(self.accounts@, who)
    }

    /// All that the ledger holds.
    pub closed spec fn total(&self) -> nat {
        sum_of(self.accounts@)
    }

    /// No balance is more than all that the ledger holds: where the ledger
    /// holds nothing, every balance is zero.
    pub proof fn lemma_balance_within_total(&self, who: Seq<u8>)
        ensures
            self.balance_of(who) <= self.total(),
    {
        lemma_part(self.accounts@, who);
    }

    /// What two identities hold is no more than all that the ledger holds.
    pub proof fn lemma_two_balances_within_total(&self, a: Seq<u8>, b: Seq<u8>)
        requires
            a != b,
        ensures
            self.balance_of(a) + self.balance_of(b) <= self.total(),
    {
        lemma_pair(self.accounts@, a, b);
    }

    /// A ledger that holds nothing.
    pub fn new() -> (r: Ledger)
        ensures
            r.wf(),
            r.total() == 0,
            forall|who: Seq<u8>| #[trigger] r.balance_of(who) == 0,
    {
        Ledger { accounts: Vec::new() }
    }

    fn position(&self, who: &Address) -> (r: Option<usize>)
        ensures
            match r {
                Some(i) => i < self.accounts@.len() && self.accounts@[i as int].owner@ == who@,
                None => forall|k: int|
                    0 <= k < self.accounts@.len() ==> self.accounts@[k].owner@ != who@,
            },
    {
        let mut i: usize = 0;
        while i < self.accounts.len()
            invariant
                i <= self.accounts@.len(),
                forall|k: int| 0 <= k < i ==> self.accounts@[k].owner@ != who@,
            decreases self.accounts@.len() - i,
        {
            if self.accounts[i].owner.same(who) {
                return Some(i);
            }
            i = i + 1;
        }
        None
    }

    /// What the ledger holds for `who`.
    pub fn balance(&self, who: &Address) -> (r: Word)
        requires
            self.wf(),
        ensures
            r@ == self.balance_of(who@),
    {
        match self.position(who) {
            Some(i) => {
                proof {
                    lemma_present(self.accounts@, i as int);
                }
                self.accounts[i].balance
            },
            None => {
                proof {
                    lemma_absent(self.accounts@, who@);
                }
                Word::zero()
            },
        }
    }

    /// Credits `amount` to `who`. The value itself must already be in
    /// custody: the ledger only records it. Refused where the account cannot
    /// hold the sum in 256 bits.
    pub fn deposit(&mut self, who: &Address, amount: &Word) -> (r: Result<(), GameError>)
        requires
            old(self).wf(),
        ensures
            final(self).wf(),
            r.is_ok() <==> old(self).balance_of(who@) + amount@ < word_modulus(),
            r.is_err() ==> r == Err::<(), GameError>(GameError::TransferFailed) && *final(self)
                == *old(self),
            r.is_ok() ==> final(self).balance_of(who@) == old(self).balance_of(who@) + amount@,
            r.is_ok() ==> final(self).total() == old(self).total() + amount@,
            forall|other: Seq<u8>|
                other != who@ ==> #[trigger] final(self).balance_of(other) == old(self).balance_of(
                    other,
                ),
    {
        let held = self.balance(who);
        match held.checked_add(amount) {
            None => Err(GameError::TransferFailed),
            Some(sum) => {
                self.store(who, sum);
                Ok(())
            },
        }
    }

    /// Takes `amount` from what the ledger holds for `who`.
    pub fn debit(&mut self, who: &Address, amount: &Word) -> (r: Result<(), GameError>)
        requires
            old(self).wf(),
        ensures
            final(self).wf(),
            r.is_ok() <==> amount@ <= old(self).balance_of(who@),
            r.is_err() ==> r == Err::<(), GameError>(GameError::InsufficientFunds) && *final(self)
                == *old(self),
            r.is_ok() ==> final(self).balance_of(who@) == old(self).balance_of(who@) - amount@,
            r.is_ok() ==> final(self).total() == old(self).total() - amount@,
            forall|other: Seq<u8>|
                other != who@ ==> #[trigger] final(self).balance_of(other) == old(self).balance_of(
                    other,
                ),
    {
        let held = self.balance(who);
        match held.checked_sub(amount) {
            None => Err(GameError::InsufficientFunds),
            Some(rest) => {
                self.store(who, rest);
                Ok(())
            },
        }
    }

    /// Records a payout of `amount` to `who`, of which `transferred` says
    /// whether the transfer out of custody went through. A rejected transfer
    /// leaves the ledger as it was.
    pub fn payout(&mut self, who: &Address, amount: &Word, transferred: bool) -> (r: Result<
        (),
        GameError,
    >)
        requires
            old(self).wf(),
        ensures
            final(self).wf(),
            r == payout_result(old(self).balance_of(who@), amount@, transferred),
            r.is_err() ==> *final(self) == *old(self),
            r.is_ok() ==> final(self).balance_of(who@) == old(self).balance_of(who@) - amount@,
            r.is_ok() ==> final(self).total() == old(self).total() - amount@,
            forall|other: Seq<u8>|
                other != who@ ==> #[trigger] final(self).balance_of(other) == old(self).balance_of(
                    other,
                ),
    {
        if self.balance(who).less_than(amount) {
            Err(GameError::InsufficientFunds)
        } else if !transferred {
            Err(GameError::TransferFailed)
        } else {
            match self.debit(who, amount) {
                Ok(()) => Ok(()),
                Err(e) => Err(e),
            }
        }
    }

    /// Sets what the ledger holds for `who`.
    fn store(&mut self, who: &Address, balance: Word)
        requires
            old(self).wf(),
        ensures
            final(self).wf(),
            final(self).balance_of(who@) == balance@,
            final(self).total() == old(self).total() - old(self).balance_of(who@) + balance@,
            forall|other: Seq<u8>|
                other != who@ ==> #[trigger] final(self).balance_of(other) == old(self).balance_of(
                    other,
                ),
    {
        let entry = Account { owner: *who, balance };
        match self.position(who) {
            Some(i) => {
                proof {
                    lemma_present(self.accounts@, i as int);
                    lemma_replace(self.accounts@, i as int, entry, who@);
                    assert forall|other: Seq<u8>| other != who@ implies balance_in(
                        self.accounts@.update(i as int, entry),
                        other,
                    ) == balance_in(self.accounts@, other) by {
                        lemma_replace(self.accounts@, i as int, entry, other);
                    }
                    lemma_present(self.accounts@.update(i as int, entry), i as int);
                }
                self.accounts[i] = entry;
            },
            None => {
                proof {
                    lemma_absent(self.accounts@, who@);
                    lemma_append(self.accounts@, entry, who@);
                    assert forall|other: Seq<u8>| other != who@ implies balance_in(
                        self.accounts@.push(entry),
                        other,
                    ) == balance_in(self.accounts@, other) by {
                        lemma_append(self.accounts@, entry, other);
                    }
                    lemma_present(self.accounts@.push(entry), self.accounts@.len() as int);
                }
                self.accounts.push(entry);
            },
        }
    }
}

/// How a payout of `amount` from a balance of `held` ends.
pub open spec fn payout_result(held: nat, amount: nat, transferred: bool) -> Result<(), GameError> {
    if held < amount {
        Err(GameError::InsufficientFunds)
    } else if !transferred {
        Err(GameError::TransferFailed)
    } else {
        Ok(())
    }
}

} // verus!
