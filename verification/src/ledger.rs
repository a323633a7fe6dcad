//! The currency ledger: balances by account, with transfers that create and destroy nothing.

use crate::sums::{
    lemma_sum_bounds_item, lemma_sum_push, lemma_sum_update, lemma_sum_within, sum_by,
};
use vstd::prelude::*;

verus! {

/// The holder of a balance.
#[derive(Clone, Copy, PartialEq, Eq, Structural, Debug)]
pub enum AccountId {
    /// An account controlled from outside the modules, by its number.
    External(u64),
    /// The pool that the council spends from.
    CouncilBudget,
    /// The escrow account of the bounty with this id.
    Bounty(u64),
    /// The account of the service channel with this id.
    ServiceChannel(u64),
}

/// Why the ledger refused an operation.
#[derive(Clone, Copy, PartialEq, Eq, Structural, Debug)]
pub enum LedgerError {
    /// The paying account holds less than the amount.
    InsufficientBalance,
    /// The amount would lift what the receiving account holds over the largest balance.
    Overflow,
}

/// Whether `to` can hold `amount` beside what it holds.
pub open spec fn has_room(balances: Map<AccountId, nat>, to: AccountId, amount: nat) -> bool {
    balances[to] + amount <= u64::MAX
}

/// Whether `amount` can go from `from` to `to`, and why not where it cannot: `from` must hold
/// it, and `to`, where it is another account, must have room for it.
pub open spec fn transfer_outcome(
    balances: Map<AccountId, nat>,
    from: AccountId,
    to: AccountId,
    amount: u64,
) -> Result<(), LedgerError> {
    if balances[from] < amount {
        Err(LedgerError::InsufficientBalance)
    } else if from != to && !has_room(balances, to, amount as nat) {
        Err(LedgerError::Overflow)
    } else {
        Ok(())
    }
}

/// What `who` holds after `amount` was added to it.
pub open spec fn credit(
    balances: Map<AccountId, nat>,
    who: AccountId,
    amount: nat,
) -> Map<AccountId, nat> {
    balances.insert(who, balances[who] + amount)
}

/// What `who` holds after `amount` was taken from it; an account cannot go below zero.
pub open spec fn debit(
    balances: Map<AccountId, nat>,
    who: AccountId,
    amount: nat,
) -> Map<AccountId, nat> {
    balances.insert(who, (balances[who] - amount) as nat)
}

/// The balances after `amount` went from `from` to `to`.
pub open spec fn moved(
    balances: Map<AccountId, nat>,
    from: AccountId,
    to: AccountId,
    amount: nat,
) -> Map<AccountId, nat> {
    credit(debit(balances, from, amount), to, amount)
}

#[derive(Clone, Copy, Debug)]
struct AccountEntry {
    id: AccountId,
    free: u64,
}

spec fn free_fn() -> spec_fn(AccountEntry) -> nat {
    |e: AccountEntry| e.free as nat
}

spec fn holds(s: Seq<AccountEntry>, who: AccountId) -> bool {
    exists|i: int| 0 <= i < s.len() && #[trigger] s[i].id == who
}

spec fn position(s: Seq<AccountEntry>, who: AccountId) -> int {
    choose|i: int| 0 <= i < s.len() && #[trigger] s[i].id == who
}

spec fn balance_in(s: Seq<AccountEntry>, who: AccountId) -> nat {
    if holds(s, who) {
        s[position(s, who)].free as nat
    } else {
        0
    }
}

spec fn distinct_ids(s: Seq<AccountEntry>) -> bool {
    forall|i: int, j: int| 0 <= i < j < s.len() ==> (#[trigger] s[i]).id != (#[trigger] s[j]).id
}

proof fn lemma_balance_at(s: Seq<AccountEntry>, i: int)
    requires
        distinct_ids(s),
        0 <= i < s.len(),
    ensures
        holds(s, s[i].id),
        position(s, s[i].id) == i,
        balance_in(s, s[i].id) == s[i].free,
{
    let who = s[i].id;
    assert(s[i].id == who);
    let p = position(s, who);
    assert(0 <= p < s.len() && s[p].id == who);
    if p < i {
        assert(s[p].id != s[i].id);
    } else if i < p {
        assert(s[i].id != s[p].id);
    }
}

/// Balances by account, with the sum of all of them.
///
/// An account that was never credited holds zero, and any account may hold up to `u64::MAX`
/// whatever the others hold.
pub struct Ledger {
    entries: Vec<AccountEntry>,
    issued: u128,
}

impl Ledger {
    /// No account is listed twice, and the recorded issuance is the sum of the balances.
    pub closed spec fn wf(&self) -> bool {
        &&& distinct_ids(self.entries@)
        &&& self.issued as nat == sum_by(self.entries@, free_fn())
    }

    /// The balance of every account.
    pub closed spec fn view(&self) -> Map<AccountId, nat> {
        Map::total(|who: AccountId| balance_in(self.entries@, who))
    }

    /// The sum of all balances.
    pub closed spec fn total_issuance(&self) -> nat {
        self.issued as nat
    }

    /// Every balance is defined and fits in a `u64`, and none exceeds the total issuance.
    pub proof fn lemma_balance_bounded(&self, who: AccountId)
        requires
            self.wf(),
        ensures
            self@.dom().contains(who),
            self@[who] <= u64::MAX,
            self@[who] <= self.total_issuance(),
    {
        if holds(self.entries@, who) {
            let p = position(self.entries@, who);
            lemma_sum_bounds_item(self.entries@, p, free_fn());
        }
    }

    /// A ledger in which every account holds zero.
    pub fn new() -> (ledger: Ledger)
        ensures
            ledger.wf(),
            ledger.total_issuance() == 0,
            forall|who: AccountId| ledger@[who] == 0,
    {
        Ledger { entries: Vec::new(), issued: 0 }
    }

    fn find(&self, who: AccountId) -> (found: Option<usize>)
        ensures
            match found {
                Some(i) => i < self.entries@.len() && self.entries@[i as int].id == who,
                None => !holds(self.entries@, who),
            },
    {
        let mut i: usize = 0;
        while i < self.entries.len()
            invariant
                i <= self.entries@.len(),
                forall|j: int| 0 <= j < i ==> (#[trigger] self.entries@[j]).id != who,
            decreases self.entries@.len() - i,
        {
            if self.entries[i].id == who {
                return Some(i);
            }
            i += 1;
        }
        None
    }

    /// What `who` holds.
    pub fn free_balance(&self, who: AccountId) -> (balance: u64)
        requires
            self.wf(),
        ensures
            balance == self@[who],
    {
        match self.find(who) {
            Some(i) => {
                proof {
                    lemma_balance_at(self.entries@, i as int);
                }
                self.entries[i].free
            },
            None => 0,
        }
    }

    /// Whether `to` can hold `amount` beside what it holds.
    pub fn has_room(&self, to: AccountId, amount: u64) -> (room: bool)
        requires
            self.wf(),
        ensures
            room == has_room(self@, to, amount as nat),
    {
        amount <= u64::MAX - self.free_balance(to)
    }

    /// The sum of all balances.
    pub fn issuance(&self) -> (total: u128)
        ensures
            total == self.total_issuance(),
    {
        self.issued
    }

    /// Makes `free` what `who` holds, whatever it held, and corrects the issuance by the
    /// difference.
    pub fn set_balance(&mut self, who: AccountId, free: u64)
        requires
            old(self).wf(),
        ensures
            final(self).wf(),
            final(self)@ == old(self)@.insert(who, free as nat),
            final(self).total_issuance() == old(self).total_issuance() - old(self)@[who] + free,
    {
        let ghost before = self.entries@;
        let found = self.find(who);
        let held = match found {
            Some(i) => {
                proof {
                    lemma_balance_at(before, i as int);
                    lemma_sum_update(before, i as int, AccountEntry { id: who, free }, free_fn());
                    lemma_sum_bounds_item(before, i as int, free_fn());
                }
                let held = self.entries[i].free;
                self.entries.set(i, AccountEntry { id: who, free });
                held
            },
            None => {
                proof {
                    lemma_sum_push(before, AccountEntry { id: who, free }, free_fn());
                }
                self.entries.push(AccountEntry { id: who, free });
                0
            },
        };
        proof {
            let after = self.entries@;
            assert(after.len() == self.entries.len());
            lemma_sum_within(after, free_fn(), u64::MAX as nat);
            assert(after.len() * (u64::MAX as nat) <= 0xffff_ffff_ffff_ffff
                * 0xffff_ffff_ffff_ffff) by (nonlinear_arith)
                requires
                    after.len() <= 0xffff_ffff_ffff_ffff,
            ;
        }
        self.issued = self.issued - held as u128 + free as u128;
        proof {
            let after = self.entries@;
            assert(distinct_ids(after));
            let k = match found {
                Some(i) => i as int,
                None => before.len() as int,
            };
            assert(after[k].id == who && after[k].free == free);
            lemma_balance_at(after, k);
            assert forall|a: AccountId| a != who implies balance_in(after, a) == balance_in(
                before,
                a,
            ) by {
                if holds(after, a) {
                    let p = position(after, a);
                    lemma_balance_at(after, p);
                    assert(before[p].id == a);
                    lemma_balance_at(before, p);
                } else if holds(before, a) {
                    let p = position(before, a);
                    assert(after[p].id == a);
                }
            }
            assert(self@ =~= old(self)@.insert(who, free as nat));
        }
    }

    /// Creates `amount` in the account of `who`, unless the account cannot hold it.
    pub fn deposit(&mut self, who: AccountId, amount: u64) -> (res: Result<(), LedgerError>)
        requires
            old(self).wf(),
        ensures
            final(self).wf(),
            res.is_ok() <==> old(self)@[who] + amount <= u64::MAX,
            res.is_ok() ==> final(self)@ == credit(old(self)@, who, amount as nat)
                && final(self).total_issuance() == old(self).total_issuance() + amount,
            res.is_err() ==> res == Err::<(), LedgerError>(LedgerError::Overflow) && final(self)@
                == old(self)@ && final(self).total_issuance() == old(self).total_issuance(),
    {
        let held = self.free_balance(who);
        if amount > u64::MAX - held {
            return Err(LedgerError::Overflow);
        }
        proof {
            self.lemma_balance_bounded(who);
        }
        self.set_balance(who, held + amount);
        Ok(())
    }

    /// Destroys up to `amount` of what `who` holds, and says how much was destroyed.
    pub fn slash(&mut self, who: AccountId, amount: u64) -> (slashed: u64)
        requires
            old(self).wf(),
        ensures
            final(self).wf(),
            slashed == if amount <= old(self)@[who] {
                amount as nat
            } else {
                old(self)@[who]
            },
            final(self)@ == debit(old(self)@, who, slashed as nat),
            final(self).total_issuance() == old(self).total_issuance() - slashed,
    {
        let held = self.free_balance(who);
        let slashed = if amount <= held {
            amount
        } else {
            held
        };
        proof {
            self.lemma_balance_bounded(who);
        }
        self.set_balance(who, held - slashed);
        slashed
    }

    /// Moves `amount` from `from` to `to`, where `from` is known to hold it and `to` to have
    /// room for it.
    pub fn transfer_held(&mut self, from: AccountId, to: AccountId, amount: u64)
        requires
            old(self).wf(),
            transfer_outcome(old(self)@, from, to, amount) is Ok,
        ensures
            final(self).wf(),
            final(self).total_issuance() == old(self).total_issuance(),
            final(self)@ == moved(old(self)@, from, to, amount as nat),
    {
        let _ = self.transfer(from, to, amount);
    }

    /// Moves `amount` from `from` to `to`, if `from` holds that much and `to` can hold it
    /// beside what it holds.
    pub fn transfer(
        &mut self,
        from: AccountId,
        to: AccountId,
        amount: u64,
    ) -> (res: Result<(), LedgerError>)
        requires
            old(self).wf(),
        ensures
            final(self).wf(),
            final(self).total_issuance() == old(self).total_issuance(),
            res == transfer_outcome(old(self)@, from, to, amount),
            res.is_ok() ==> final(self)@ == moved(old(self)@, from, to, amount as nat),
            res.is_err() ==> final(self)@ == old(self)@,
    {
        let held = self.free_balance(from);
        if held < amount {
            return Err(LedgerError::InsufficientBalance);
        }
        if from != to {
            let received = self.free_balance(to);
            if amount > u64::MAX - received {
                return Err(LedgerError::Overflow);
            }
        }
        proof {
            self.lemma_balance_bounded(from);
            self.lemma_balance_bounded(to);
        }
        self.set_balance(from, held - amount);
        let received = self.free_balance(to);
        self.set_balance(to, received + amount);
        Ok(())
    }
}

} // verus!
