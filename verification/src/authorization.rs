//! Who may act for whom: the accounts that members and workers act from.

use crate::common::{signer_of, RawOrigin};
use std::collections::HashMap;
use vstd::prelude::*;

verus! {

broadcast use vstd::std_specs::hash::group_hash_axioms;

/// The account that the identity acts from, where it has one.
pub open spec fn account_of(accounts: Map<u64, u64>, id: u64) -> Option<u64> {
    if accounts.contains_key(id) {
        Some(accounts[id])
    } else {
        None
    }
}

/// Whether `account_id` is the account that the identity acts from.
pub open spec fn is_bound(accounts: Map<u64, u64>, id: u64, account_id: u64) -> bool {
    account_of(accounts, id) == Some(account_id)
}

/// The account that signed the call, where it is the account that the identity acts from.
pub open spec fn signed_by(accounts: Map<u64, u64>, origin: RawOrigin, id: u64) -> Option<u64> {
    match signer_of(origin) {
        Some(account_id) => if is_bound(accounts, id, account_id) {
            Some(account_id)
        } else {
            None
        },
        None => None,
    }
}

/// Who acts from which account: the controller account of each member, or the role account of
/// each worker of a working group. An identity has one account at a time.
pub struct Registry {
    accounts: HashMap<u64, u64>,
}

impl View for Registry {
    type V = Map<u64, u64>;

    closed spec fn view(&self) -> Map<u64, u64> {
        self.accounts@
    }
}

impl Registry {
    /// A registry without identities.
    pub fn new() -> (registry: Registry)
        ensures
            registry@ == Map::<u64, u64>::empty(),
    {
        Registry { accounts: HashMap::new() }
    }

    /// Makes `account_id` the account that the identity acts from, in place of any other.
    pub fn bind(&mut self, id: u64, account_id: u64)
        ensures
            final(self)@ == old(self)@.insert(id, account_id),
    {
        self.accounts.insert(id, account_id);
    }

    /// Whether the identity is known.
    pub fn contains(&self, id: u64) -> (known: bool)
        ensures
            known == self@.contains_key(id),
    {
        self.accounts.contains_key(&id)
    }

    /// The account that the identity acts from, where it has one.
    pub fn account_of(&self, id: u64) -> (account: Option<u64>)
        ensures
            account == account_of(self@, id),
    {
        match self.accounts.get(&id) {
            Some(account_id) => Some(*account_id),
            None => None,
        }
    }

    /// Whether `account_id` is the account that the identity acts from.
    pub fn is_bound(&self, id: u64, account_id: u64) -> (bound: bool)
        ensures
            bound == is_bound(self@, id, account_id),
    {
        match self.accounts.get(&id) {
            Some(account) => *account == account_id,
            None => false,
        }
    }

    /// The account that signed the call, where it is the account that the identity acts from.
    pub fn signed_by(&self, origin: RawOrigin, id: u64) -> (signer: Option<u64>)
        ensures
            signer == signed_by(self@, origin, id),
    {
        match origin {
            RawOrigin::Signed(account_id) => if self.is_bound(id, account_id) {
                Some(account_id)
            } else {
                None
            },
            _ => None,
        }
    }
}

} // verus!
