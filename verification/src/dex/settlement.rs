//! Two transfers that a pool operation makes, done both or not at all.

use crate::dex::Error;
use crate::multi_token;
use crate::multi_token::holdings::{transfer_result, Holdings};
use crate::multi_token::multitoken::MultiToken;
use crate::multi_token::AccountId;
use vstd::prelude::*;

verus! {

/// A transfer of `amount` of asset `id` from `from` to `to`.
#[derive(Clone, Copy, Debug, PartialEq, Eq, Structural)]
pub struct Transfer {
    pub from: AccountId,
    pub to: AccountId,
    pub id: u64,
    pub amount: u64,
}

/// What a transfer makes of `h`, or why the ledger refuses it.
pub open spec fn transferred(h: Holdings, t: Transfer) -> Result<
    Holdings,
    multi_token::Error,
> {
    transfer_result(h, t.from, t.to, t.id, t.amount)
}

/// What `first` and then `second` make of `h`; the second is held against
/// what the first has left. A refusal of either is a refusal of both.
pub open spec fn both_transferred(h: Holdings, first: Transfer, second: Transfer) -> Result<
    Holdings,
    Error,
> {
    match transferred(h, first) {
        Ok(g) => match transferred(g, second) {
            Ok(k) => Ok(k),
            Err(e) => Err(Error::Token(e)),
        },
        Err(e) => Err(Error::Token(e)),
    }
}

/// Why the ledger, as it stands, would refuse `t`, if it would.
pub fn refusal<L: MultiToken>(ledger: &L, t: Transfer) -> (result: Option<multi_token::Error>)
    ensures
        match transferred(ledger.holdings(), t) {
            Ok(_) => result is None,
            Err(e) => result == Some(e),
        },
{
    let held = ledger.balances(&t.id, &t.from);
    if held < t.amount {
        return Some(multi_token::Error::NotEnoughOwned);
    }
    if t.from != t.to {
        let received = ledger.balances(&t.id, &t.to);
        if t.amount > u64::MAX - received {
            return Some(multi_token::Error::ArithmeticOverflow);
        }
    }
    None
}

/// What `who` will hold of asset `id` once `t` is done, read from the
/// ledger before it is.
fn held_after<L: MultiToken>(ledger: &L, t: Transfer, id: u64, who: AccountId) -> (held: u64)
    requires
        transferred(ledger.holdings(), t) is Ok,
    ensures
        held == transferred(ledger.holdings(), t)->Ok_0[(id, who)],
{
    let now = ledger.balances(&id, &who);
    if id != t.id || t.from == t.to {
        now
    } else if who == t.from {
        now - t.amount
    } else if who == t.to {
        now + t.amount
    } else {
        now
    }
}

/// Does `first` and then `second`, or refuses and changes nothing. Both are
/// held against the ledger before either is done.
pub fn settle<L: MultiToken>(ledger: &mut L, first: Transfer, second: Transfer) -> (result: Result<
    (),
    Error,
>)
    ensures
        match both_transferred(old(ledger).holdings(), first, second) {
            Ok(h) => result is Ok && final(ledger).holdings() == h,
            Err(e) => result == Err::<(), Error>(e) && final(ledger).holdings() == old(
                ledger
            ).holdings(),
        },
{
    if let Some(e) = refusal(ledger, first) {
        return Err(Error::Token(e));
    }
    let held = held_after(ledger, first, second.id, second.from);
    if held < second.amount {
        return Err(Error::Token(multi_token::Error::NotEnoughOwned));
    }
    if second.from != second.to {
        let received = held_after(ledger, first, second.id, second.to);
        if second.amount > u64::MAX - received {
            return Err(Error::Token(multi_token::Error::ArithmeticOverflow));
        }
    }
    match ledger.transfer_to(&first.from, &first.to, &first.id, &first.amount) {
        Ok(()) => {},
        Err(e) => {
            return Err(Error::Token(e));
        },
    }
    match ledger.transfer_to(&second.from, &second.to, &second.id, &second.amount) {
        Ok(()) => Ok(()),
        Err(e) => Err(Error::Token(e)),
    }
}

} // verus!
