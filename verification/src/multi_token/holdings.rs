//! The mathematical model of the ledger's balances, and the effect of each
//! operation on it.

use crate::multi_token::{AccountId, Error};
use vstd::prelude::*;

verus! {

/// What every account holds of every asset. The map is total: an account
/// that was never credited holds zero.
pub type Holdings = Map<(u64, AccountId), u64>;

/// The ledger in which nobody holds anything.
pub open spec fn no_holdings() -> Holdings {
    Map::total(|k: (u64, AccountId)| 0u64)
}

/// `h` with `amount` more of asset `id` on `who`.
pub open spec fn credited(h: Holdings, id: u64, who: AccountId, amount: u64) -> Holdings {
    h.insert((id, who), (h[(id, who)] + amount) as u64)
}

/// `h` with `amount` less of asset `id` on `who`.
pub open spec fn debited(h: Holdings, id: u64, who: AccountId, amount: u64) -> Holdings {
    h.insert((id, who), (h[(id, who)] - amount) as u64)
}

/// Minting `amount` of `id` to `who`: refused where the new balance would
/// not fit in 64 bits.
pub open spec fn mint_result(h: Holdings, who: AccountId, id: u64, amount: u64) -> Result<
    Holdings,
    Error,
> {
    if h[(id, who)] + amount > u64::MAX {
        Err(Error::ArithmeticOverflow)
    } else {
        Ok(credited(h, id, who, amount))
    }
}

/// Moving `amount` of `id` from `from` to `to`: refused where `from` holds
/// less, or where `to` is another account whose new balance would not fit in
/// 64 bits. A transfer to oneself changes nothing.
pub open spec fn transfer_result(
    h: Holdings,
    from: AccountId,
    to: AccountId,
    id: u64,
    amount: u64,
) -> Result<Holdings, Error> {
    if h[(id, from)] < amount {
        Err(Error::NotEnoughOwned)
    } else if from != to && h[(id, to)] + amount > u64::MAX {
        Err(Error::ArithmeticOverflow)
    } else {
        Ok(credited(debited(h, id, from, amount), id, to, amount))
    }
}

/// A mint to an account that holds nothing of the asset is never refused,
/// and leaves the account with exactly the amount.
pub proof fn lemma_mint_on_nothing(h: Holdings, who: AccountId, id: u64, amount: u64)
    requires
        h[(id, who)] == 0,
    ensures
        mint_result(h, who, id, amount) is Ok,
        mint_result(h, who, id, amount)->Ok_0[(id, who)] == amount,
{
}

/// A transfer of no more than `from` holds, for which `to` has room, is
/// done, and what the two hold together is what they held before.
pub proof fn lemma_transfer_conserves_sum(
    h: Holdings,
    from: AccountId,
    to: AccountId,
    id: u64,
    amount: u64,
)
    requires
        amount <= h[(id, from)],
        from == to || h[(id, to)] + amount <= u64::MAX,
    ensures
        transfer_result(h, from, to, id, amount) is Ok,
        ({
            let g = transfer_result(h, from, to, id, amount)->Ok_0;
            &&& g[(id, from)] + g[(id, to)] == h[(id, from)] + h[(id, to)]
            &&& from != to ==> g[(id, from)] == h[(id, from)] - amount && g[(id, to)] == h[(
                id,
                to,
            )] + amount
            &&& from == to ==> g[(id, from)] == h[(id, from)]
        }),
{
}

/// A transfer of more than `from` holds is refused for that reason.
pub proof fn lemma_transfer_beyond_balance(
    h: Holdings,
    from: AccountId,
    to: AccountId,
    id: u64,
    amount: u64,
)
    requires
        amount > h[(id, from)],
    ensures
        transfer_result(h, from, to, id, amount) == Err::<Holdings, Error>(Error::NotEnoughOwned),
{
}

/// A transfer that is done leaves every balance but those of `from` and `to`
/// in the asset as it was.
pub proof fn lemma_transfer_touches_two(
    h: Holdings,
    from: AccountId,
    to: AccountId,
    id: u64,
    amount: u64,
    other_id: u64,
    other: AccountId,
)
    requires
        transfer_result(h, from, to, id, amount) is Ok,
        other_id != id || (other != from && other != to),
    ensures
        transfer_result(h, from, to, id, amount)->Ok_0[(other_id, other)] == h[(other_id, other)],
{
}

/// The first `n` mints of a batch, applied in order; the first refusal ends
/// it.
pub open spec fn mint_batch_prefix(
    h: Holdings,
    who: AccountId,
    ids: Seq<u64>,
    amounts: Seq<u64>,
    n: nat,
) -> Result<Holdings, Error>
    decreases n,
{
    if n == 0 {
        Ok(h)
    } else {
        match mint_batch_prefix(h, who, ids, amounts, (n - 1) as nat) {
            Ok(g) => mint_result(g, who, ids[n - 1], amounts[n - 1]),
            Err(e) => Err(e),
        }
    }
}

/// A whole batch of mints, of `amounts[i]` of `ids[i]` each.
pub open spec fn mint_batch_result(
    h: Holdings,
    who: AccountId,
    ids: Seq<u64>,
    amounts: Seq<u64>,
) -> Result<Holdings, Error> {
    mint_batch_prefix(h, who, ids, amounts, ids.len())
}

/// The first `n` transfers of a batch, applied in order; the first refusal
/// ends it.
pub open spec fn transfer_batch_prefix(
    h: Holdings,
    from: AccountId,
    to: AccountId,
    ids: Seq<u64>,
    amounts: Seq<u64>,
    n: nat,
) -> Result<Holdings, Error>
    decreases n,
{
    if n == 0 {
        Ok(h)
    } else {
        match transfer_batch_prefix(h, from, to, ids, amounts, (n - 1) as nat) {
            Ok(g) => transfer_result(g, from, to, ids[n - 1], amounts[n - 1]),
            Err(e) => Err(e),
        }
    }
}

/// A whole batch of transfers, of `amounts[i]` of `ids[i]` each.
pub open spec fn transfer_batch_result(
    h: Holdings,
    from: AccountId,
    to: AccountId,
    ids: Seq<u64>,
    amounts: Seq<u64>,
) -> Result<Holdings, Error> {
    transfer_batch_prefix(h, from, to, ids, amounts, ids.len())
}

/// Once a mint of a batch is refused, the batch is refused with the same
/// error, however many mints follow.
pub proof fn lemma_mint_batch_refusal_stays(
    h: Holdings,
    who: AccountId,
    ids: Seq<u64>,
    amounts: Seq<u64>,
    n: nat,
    m: nat,
)
    requires
        n <= m,
        mint_batch_prefix(h, who, ids, amounts, n) is Err,
    ensures
        mint_batch_prefix(h, who, ids, amounts, m) == mint_batch_prefix(h, who, ids, amounts, n),
    decreases m,
{
    if n < m {
        lemma_mint_batch_refusal_stays(h, who, ids, amounts, n, (m - 1) as nat);
    }
}

/// Once a transfer of a batch is refused, the batch is refused with the same
/// error, however many transfers follow.
pub proof fn lemma_transfer_batch_refusal_stays(
    h: Holdings,
    from: AccountId,
    to: AccountId,
    ids: Seq<u64>,
    amounts: Seq<u64>,
    n: nat,
    m: nat,
)
    requires
        n <= m,
        transfer_batch_prefix(h, from, to, ids, amounts, n) is Err,
    ensures
        transfer_batch_prefix(h, from, to, ids, amounts, m) == transfer_batch_prefix(
            h,
            from,
            to,
            ids,
            amounts,
            n,
        ),
    decreases m,
{
    if n < m {
        lemma_transfer_batch_refusal_stays(h, from, to, ids, amounts, n, (m - 1) as nat);
    }
}

} // verus!
