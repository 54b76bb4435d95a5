//! The capability that the market maker needs of a ledger.

use crate::multi_token::holdings::{mint_result, transfer_result, Holdings};
use crate::multi_token::{AccountId, Error};
use vstd::prelude::*;

verus! {

/// A ledger of several assets, as far as the market maker uses it. Any
/// backend that keeps these contracts can stand in for the crate's own.
pub trait MultiToken {
    /// What every account holds of every asset.
    spec fn holdings(&self) -> Holdings;

    /// Reads what `account` holds of asset `id`.
    fn balances(&self, id: &u64, account: &AccountId) -> (amount: u64)
        ensures
            amount == self.holdings()[(*id, *account)],
    ;

    /// Moves `amount` of `id` from `origin` to `to`, or refuses and
    /// changes nothing.
    fn transfer_to(
        &mut self,
        origin: &AccountId,
        to: &AccountId,
        id: &u64,
        amount: &u64,
    ) -> (result: Result<(), Error>)
        ensures
            match transfer_result(old(self).holdings(), *origin, *to, *id, *amount) {
                Ok(h) => result is Ok && final(self).holdings() == h,
                Err(e) => result == Err::<(), Error>(e) && final(self).holdings() == old(
                    self
                ).holdings(),
            },
    ;

    /// Credits `amount` of `id` to `origin`, or refuses and changes
    /// nothing.
    fn mint(&mut self, origin: &AccountId, id: &u64, amount: &u64) -> (result: Result<(), Error>)
        ensures
            match mint_result(old(self).holdings(), *origin, *id, *amount) {
                Ok(h) => result is Ok && final(self).holdings() == h,
                Err(e) => result == Err::<(), Error>(e) && final(self).holdings() == old(
                    self
                ).holdings(),
            },
    ;
}

} // verus!
