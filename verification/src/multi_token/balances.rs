//! The store behind the ledger's balances: a hash map from one key per
//! asset and account to the amount held.

use crate::multi_token::holdings::{mint_result, no_holdings, transfer_result, Holdings};
use crate::multi_token::{AccountId, Error};
use std::collections::HashMap;
use vstd::prelude::*;

verus! {

/// The key under which the pair `(hi, lo)` is stored: `hi` in the upper 64
/// bits, `lo` in the lower. Distinct pairs have distinct keys.
pub open spec fn pair_key(hi: u64, lo: u64) -> u128 {
    (hi * 0x1_0000_0000_0000_0000 + lo) as u128
}

/// Computes the key of a pair.
pub fn key_of(hi: u64, lo: u64) -> (k: u128)
    ensures
        k == pair_key(hi, lo),
{
    (hi as u128) * 0x1_0000_0000_0000_0000u128 + (lo as u128)
}

/// The amounts held, by asset and account. An entry that is absent stands
/// for zero.
pub struct Balances {
    amounts: HashMap<u128, u64>,
}

impl Balances {
    /// What the store holds, as a total map.
    pub closed spec fn holdings(&self) -> Holdings {
        Map::total(
            |k: (u64, AccountId)|
                if self.amounts@.contains_key(pair_key(k.0, k.1)) {
                    self.amounts@[pair_key(k.0, k.1)]
                } else {
                    0u64
                },
        )
    }

    /// A store in which nobody holds anything.
    pub fn new() -> (store: Self)
        ensures
            store.holdings() == no_holdings(),
    {
        let store = Balances { amounts: HashMap::new() };
        assert(store.holdings() =~= no_holdings());
        store
    }

    /// What `who` holds of `id`.
    pub fn get(&self, id: u64, who: AccountId) -> (amount: u64)
        ensures
            amount == self.holdings()[(id, who)],
    {
        let key = key_of(id, who);
        match self.amounts.get(&key) {
            Some(amount) => *amount,
            None => 0,
        }
    }

    /// Sets what `who` holds of `id`, and nothing else.
    pub fn set(&mut self, id: u64, who: AccountId, amount: u64)
        ensures
            final(self).holdings() == old(self).holdings().insert((id, who), amount),
    {
        let key = key_of(id, who);
        self.amounts.insert(key, amount);
        assert(self.holdings() =~= old(self).holdings().insert((id, who), amount));
    }

    /// A copy to work on, which leaves this store as it is.
    pub fn snapshot(&self) -> (copy: Self)
        ensures
            copy.holdings() == self.holdings(),
    {
        let copy = Balances { amounts: self.amounts.clone() };
        assert(copy.holdings() =~= self.holdings());
        copy
    }

    /// Credits `amount` of `id` to `who`, or refuses and changes nothing.
    pub fn mint(&mut self, who: AccountId, id: u64, amount: u64) -> (result: Result<(), Error>)
        ensures
            match mint_result(old(self).holdings(), who, id, amount) {
                Ok(h) => result is Ok && final(self).holdings() == h,
                Err(e) => result == Err::<(), Error>(e) && final(self).holdings() == old(
                    self
                ).holdings(),
            },
    {
        let held = self.get(id, who);
        if amount > u64::MAX - held {
            return Err(Error::ArithmeticOverflow);
        }
        self.set(id, who, held + amount);
        Ok(())
    }

    /// Moves `amount` of `id` from `from` to `to`, or refuses and changes
    /// nothing.
    pub fn transfer(&mut self, from: AccountId, to: AccountId, id: u64, amount: u64) -> (result:
        Result<(), Error>)
        ensures
            match transfer_result(old(self).holdings(), from, to, id, amount) {
                Ok(h) => result is Ok && final(self).holdings() == h,
                Err(e) => result == Err::<(), Error>(e) && final(self).holdings() == old(
                    self
                ).holdings(),
            },
    {
        let held = self.get(id, from);
        if held < amount {
            return Err(Error::NotEnoughOwned);
        }
        if from != to {
            let received = self.get(id, to);
            if amount > u64::MAX - received {
                return Err(Error::ArithmeticOverflow);
            }
            self.set(id, from, held - amount);
            self.set(id, to, received + amount);
        }
        assert(self.holdings() =~= transfer_result(
            old(self).holdings(),
            from,
            to,
            id,
            amount,
        )->Ok_0);
        Ok(())
    }
}

} // verus!
