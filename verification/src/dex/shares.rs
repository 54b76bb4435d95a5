//! The shares of the pool that accounts hold, and their sum.

use crate::multi_token::AccountId;
use std::collections::HashMap;
use vstd::prelude::*;

verus! {

/// The shares that every account holds. The map is total: an account that
/// never provided liquidity holds zero.
pub type Shares = Map<AccountId, u64>;

/// Nobody holds a share.
pub open spec fn no_shares() -> Shares {
    Map::total(|who: AccountId| 0u64)
}

/// The sum of the shares of the accounts below `n`.
pub open spec fn shares_below(s: Shares, n: nat) -> int
    decreases n,
{
    if n == 0 {
        0
    } else {
        shares_below(s, (n - 1) as nat) + s[(n - 1) as u64]
    }
}

/// The sum of the shares of all accounts.
pub open spec fn total_shares(s: Shares) -> int {
    shares_below(s, 0x1_0000_0000_0000_0000)
}

/// Where one account's shares are set anew, the sum over the accounts below
/// `n` changes by the difference if the account is among them, and not at
/// all if it is not.
pub proof fn lemma_shares_below_insert(s: Shares, who: AccountId, held: u64, n: nat)
    requires
        n <= 0x1_0000_0000_0000_0000,
    ensures
        shares_below(s.insert(who, held), n) == if who < n {
            shares_below(s, n) - s[who] + held
        } else {
            shares_below(s, n)
        },
        shares_below(s, n) >= 0,
        who < n ==> s[who] <= shares_below(s, n),
    decreases n,
{
    if n > 0 {
        lemma_shares_below_insert(s, who, held, (n - 1) as nat);
    }
}

/// Where one account's shares are set anew, the sum of all shares changes
/// by the difference.
pub proof fn lemma_total_shares_insert(s: Shares, who: AccountId, held: u64)
    ensures
        total_shares(s.insert(who, held)) == total_shares(s) - s[who] + held,
{
    lemma_shares_below_insert(s, who, held, 0x1_0000_0000_0000_0000);
}

/// No account holds more than all accounts together.
pub proof fn lemma_share_within_total(s: Shares, who: AccountId)
    ensures
        s[who] <= total_shares(s),
{
    lemma_shares_below_insert(s, who, 0, 0x1_0000_0000_0000_0000);
}

/// Where nobody holds a share, the sum over the accounts below `n` is zero.
pub proof fn lemma_no_shares_below(n: nat)
    requires
        n <= 0x1_0000_0000_0000_0000,
    ensures
        shares_below(no_shares(), n) == 0,
    decreases n,
{
    if n > 0 {
        lemma_no_shares_below((n - 1) as nat);
    }
}

/// The shares held, by account. An entry that is absent stands for zero.
pub struct ShareBook {
    held: HashMap<u64, u64>,
}

impl ShareBook {
    /// What the book holds, as a total map.
    pub closed spec fn shares(&self) -> Shares {
        Map::total(
            |who: AccountId|
                if self.held@.contains_key(who) {
                    self.held@[who]
                } else {
                    0u64
                },
        )
    }

    /// A book in which nobody holds a share.
    pub fn new() -> (book: Self)
        ensures
            book.shares() == no_shares(),
    {
        let book = ShareBook { held: HashMap::new() };
        assert(book.shares() =~= no_shares());
        book
    }

    /// The shares of `who`.
    pub fn get(&self, who: AccountId) -> (held: u64)
        ensures
            held == self.shares()[who],
    {
        match self.held.get(&who) {
            Some(held) => *held,
            None => 0,
        }
    }

    /// Sets the shares of `who`, and of nobody else.
    pub fn set(&mut self, who: AccountId, held: u64)
        ensures
            final(self).shares() == old(self).shares().insert(who, held),
    {
        self.held.insert(who, held);
        assert(self.shares() =~= old(self).shares().insert(who, held));
    }
}

} // verus!
