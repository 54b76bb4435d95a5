//! The store behind the ledger's approvals: which operator may move which
//! owner's balances.

use crate::multi_token::balances::{key_of, pair_key};
use crate::multi_token::AccountId;
use std::collections::HashMap;
use vstd::prelude::*;

verus! {

/// The approvals given, by owner and operator. An entry that is absent
/// stands for "not approved".
pub struct Approvals {
    flags: HashMap<u128, bool>,
}

impl Approvals {
    /// The pairs `(owner, operator)` for which an approval stands.
    pub closed spec fn approved(&self) -> Set<(AccountId, AccountId)> {
        Set::new(
            |p: (AccountId, AccountId)|
                self.flags@.contains_key(pair_key(p.0, p.1)) && self.flags@[pair_key(p.0, p.1)],
        )
    }

    /// A store without any approval.
    pub fn new() -> (store: Self)
        ensures
            store.approved() == Set::<(AccountId, AccountId)>::empty(),
    {
        let store = Approvals { flags: HashMap::new() };
        assert(store.approved() =~= Set::<(AccountId, AccountId)>::empty());
        store
    }

    /// Whether `operator` may move what `owner` holds.
    pub fn get(&self, owner: AccountId, operator: AccountId) -> (flag: bool)
        ensures
            flag == self.approved().contains((owner, operator)),
    {
        let key = key_of(owner, operator);
        match self.flags.get(&key) {
            Some(flag) => *flag,
            None => false,
        }
    }

    /// Gives or withdraws the approval of `operator` by `owner`, and touches
    /// no other.
    pub fn set(&mut self, owner: AccountId, operator: AccountId, flag: bool)
        ensures
            final(self).approved() == if flag {
                old(self).approved().insert((owner, operator))
            } else {
                old(self).approved().remove((owner, operator))
            },
    {
        let key = key_of(owner, operator);
        self.flags.insert(key, flag);
        if flag {
            assert(self.approved() =~= old(self).approved().insert((owner, operator)));
        } else {
            assert(self.approved() =~= old(self).approved().remove((owner, operator)));
        }
    }
}

} // verus!
