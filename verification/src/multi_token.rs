//! The asset ledger: balances per asset and account, and operator approvals.
//!
//! Every operation either succeeds, changes the ledger as its contract says
//! and hands back the one event that describes it, or is refused with an
//! [`Error`] and leaves the ledger as it was. A batch is applied element by
//! element, in order, and as a whole or not at all.

use crate::multi_token::approvals::Approvals;
use crate::multi_token::balances::Balances;
use crate::multi_token::holdings::{
    lemma_mint_batch_refusal_stays, lemma_transfer_batch_refusal_stays, mint_batch_prefix,
    mint_batch_result, mint_result, no_holdings, transfer_batch_prefix, transfer_batch_result,
    transfer_result, Holdings,
};
use crate::multi_token::multitoken::MultiToken;
use vstd::prelude::*;

pub mod approvals;
pub mod balances;
pub mod holdings;
pub mod multitoken;

verus! {

/// An account's identity, as the host hands it over after authentication.
pub type AccountId = u64;

/// Why a ledger operation was refused.
#[derive(Clone, Copy, Debug, PartialEq, Eq, Structural)]
pub enum Error {
    /// The two sequences of a batch differ in length.
    ShouldBeSameLength,
    /// The account debited holds less than the amount.
    NotEnoughOwned,
    /// The operator has no approval from the owner.
    NotApproved,
    /// The account credited would hold more than 64 bits can express.
    ArithmeticOverflow,
}

/// What a successful operation did, for the host to record.
#[allow(inconsistent_fields)]
#[derive(Debug, PartialEq, Eq)]
pub enum Event {
    /// `value` of asset `id` was minted to `account`.
    MintSingle { account: AccountId, id: u64, value: u64 },
    /// `value[i]` of asset `id[i]` was minted to `account`, for each `i`.
    MintBatch { account: AccountId, id: Vec<u64>, value: Vec<u64> },
    /// `operator` moved `value` of asset `id` from `from` to `to`.
    TransferSingle { operator: AccountId, from: AccountId, to: AccountId, id: u64, value: u64 },
    /// `operator` moved `value[i]` of asset `id[i]` from `from` to `to`, for
    /// each `i`.
    TransferBatch {
        operator: AccountId,
        from: AccountId,
        to: AccountId,
        id: Vec<u64>,
        value: Vec<u64>,
    },
    /// `account` gave (`approved`) or withdrew its approval of `operator`.
    ApprovalForAll { account: AccountId, operator: AccountId, approved: bool },
}

/// The ledger as contracts see it.
pub ghost struct State {
    /// What every account holds of every asset; zero where it was never
    /// credited.
    pub holdings: Holdings,
    /// The pairs `(owner, operator)` for which an approval stands.
    pub approvals: Set<(AccountId, AccountId)>,
}

/// The ledger.
pub struct Pallet {
    balances: Balances,
    approvals: Approvals,
}

impl View for Pallet {
    type V = State;

    closed spec fn view(&self) -> State {
        State { holdings: self.balances.holdings(), approvals: self.approvals.approved() }
    }
}

impl Pallet {
    /// A ledger in which nobody holds anything and no approval stands.
    pub fn new() -> (ledger: Self)
        ensures
            ledger@.holdings == no_holdings(),
            ledger@.approvals == Set::<(AccountId, AccountId)>::empty(),
    {
        Pallet { balances: Balances::new(), approvals: Approvals::new() }
    }

    /// What `account` holds of asset `id`: zero where it was never credited.
    pub fn balances(&self, id: u64, account: AccountId) -> (amount: u64)
        ensures
            amount == self@.holdings[(id, account)],
    {
        self.balances.get(id, account)
    }

    /// Whether `operator` may move what `owner` holds.
    pub fn approvals(&self, owner: AccountId, operator: AccountId) -> (approved: bool)
        ensures
            approved == self@.approvals.contains((owner, operator)),
    {
        self.approvals.get(owner, operator)
    }

    /// Gives (`is_approved`) or withdraws the approval by `origin` of the
    /// operator `account`. Always succeeds; saying the same twice changes
    /// nothing the second time.
    pub fn set_approval(
        &mut self,
        origin: AccountId,
        account: AccountId,
        is_approved: bool,
    ) -> (result: Result<Event, Error>)
        ensures
            result == Ok::<Event, Error>(
                (Event::ApprovalForAll {
                    account: origin,
                    operator: account,
                    approved: is_approved,
                }),
            ),
            final(self)@.holdings == old(self)@.holdings,
            final(self)@.approvals == if is_approved {
                old(self)@.approvals.insert((origin, account))
            } else {
                old(self)@.approvals.remove((origin, account))
            },
            final(self)@.approvals.contains((origin, account)) == is_approved,
    {
        self.approvals.set(origin, account, is_approved);
        Ok(Event::ApprovalForAll { account: origin, operator: account, approved: is_approved })
    }

    /// Credits `amount` of asset `id` to `origin`. Refused only where the
    /// new balance would not fit in 64 bits; on a balance of zero every
    /// amount is accepted and becomes the balance.
    pub fn mint(&mut self, origin: AccountId, id: u64, amount: u64) -> (result: Result<
        Event,
        Error,
    >)
        ensures
            final(self)@.approvals == old(self)@.approvals,
            match mint_result(old(self)@.holdings, origin, id, amount) {
                Ok(h) => result == Ok::<Event, Error>(
                    (Event::MintSingle { account: origin, id, value: amount }),
                ) && final(self)@.holdings == h,
                Err(e) => result == Err::<Event, Error>(e) && final(self)@ == old(self)@,
            },
            old(self)@.holdings[(id, origin)] == 0 ==> result is Ok
                && final(self)@.holdings[(id, origin)] == amount,
    {
        match self.balances.mint(origin, id, amount) {
            Ok(()) => Ok(Event::MintSingle { account: origin, id, value: amount }),
            Err(e) => Err(e),
        }
    }

    /// Credits `amounts[i]` of asset `ids[i]` to `origin`, for each `i` in
    /// order. Refused where the two lengths differ, and where any of the
    /// mints, applied after those before it, would be refused; nothing is
    /// changed then.
    pub fn mint_batch(
        &mut self,
        origin: AccountId,
        ids: Vec<u64>,
        amounts: Vec<u64>,
    ) -> (result: Result<Event, Error>)
        ensures
            final(self)@.approvals == old(self)@.approvals,
            ids.len() != amounts.len() ==> result == Err::<Event, Error>(Error::ShouldBeSameLength)
                && final(self)@ == old(self)@,
            ids.len() == amounts.len() ==> match mint_batch_result(
                old(self)@.holdings,
                origin,
                ids@,
                amounts@,
            ) {
                Ok(h) => result == Ok::<Event, Error>(
                    (Event::MintBatch { account: origin, id: ids, value: amounts }),
                ) && final(self)@.holdings == h,
                Err(e) => result == Err::<Event, Error>(e) && final(self)@ == old(self)@,
            },
    {
        if ids.len() != amounts.len() {
            return Err(Error::ShouldBeSameLength);
        }
        let ghost before = self@.holdings;
        let mut work = self.balances.snapshot();
        let n = ids.len();
        let mut i: usize = 0;
        while i < n
            invariant
                *self == *old(self),
                before == old(self)@.holdings,
                i <= n,
                n == ids.len(),
                n == amounts.len(),
                mint_batch_prefix(before, origin, ids@, amounts@, i as nat) == Ok::<
                    Holdings,
                    Error,
                >(work.holdings()),
            decreases n - i,
        {
            match work.mint(origin, ids[i], amounts[i]) {
                Ok(()) => {},
                Err(e) => {
                    proof {
                        lemma_mint_batch_refusal_stays(
                            before,
                            origin,
                            ids@,
                            amounts@,
                            (i + 1) as nat,
                            n as nat,
                        );
                    }
                    return Err(e);
                },
            }
            i += 1;
        }
        self.balances = work;
        Ok(Event::MintBatch { account: origin, id: ids, value: amounts })
    }

    /// Moves `amount` of asset `id` from `origin` to `to`. Refused where
    /// `origin` holds less, or where `to` is another account whose balance
    /// would no longer fit in 64 bits; nothing is changed then. A transfer
    /// to oneself of an amount one holds succeeds and changes nothing. What
    /// the two accounts hold together is the same after a transfer as
    /// before.
    pub fn transfer_to(
        &mut self,
        origin: AccountId,
        to: AccountId,
        id: u64,
        amount: u64,
    ) -> (result: Result<Event, Error>)
        ensures
            final(self)@.approvals == old(self)@.approvals,
            match transfer_result(old(self)@.holdings, origin, to, id, amount) {
                Ok(h) => result == Ok::<Event, Error>(
                    (Event::TransferSingle {
                        operator: origin,
                        from: origin,
                        to,
                        id,
                        value: amount,
                    }),
                ) && final(self)@.holdings == h,
                Err(e) => result == Err::<Event, Error>(e) && final(self)@ == old(self)@,
            },
            amount > old(self)@.holdings[(id, origin)] ==> result == Err::<Event, Error>(
                Error::NotEnoughOwned,
            ),
            ({
                let before = old(self)@.holdings;
                let after = final(self)@.holdings;
                amount <= before[(id, origin)] && (origin == to || before[(id, to)] + amount
                    <= u64::MAX) ==> result is Ok && after[(id, origin)] + after[(id, to)]
                    == before[(id, origin)] + before[(id, to)]
            }),
    {
        match self.balances.transfer(origin, to, id, amount) {
            Ok(()) => Ok(
                Event::TransferSingle {
                    operator: origin,
                    from: origin,
                    to,
                    id,
                    value: amount,
                },
            ),
            Err(e) => Err(e),
        }
    }

    /// Moves `amounts[i]` of asset `ids[i]` from `origin` to `to`, for each
    /// `i` in order. Refused where the two lengths differ, and where any of
    /// the transfers, applied after those before it, would be refused;
    /// nothing is changed then.
    pub fn transfer_batch_to(
        &mut self,
        origin: AccountId,
        to: AccountId,
        ids: Vec<u64>,
        amounts: Vec<u64>,
    ) -> (result: Result<Event, Error>)
        ensures
            final(self)@.approvals == old(self)@.approvals,
            ids.len() != amounts.len() ==> result == Err::<Event, Error>(Error::ShouldBeSameLength)
                && final(self)@ == old(self)@,
            ids.len() == amounts.len() ==> match transfer_batch_result(
                old(self)@.holdings,
                origin,
                to,
                ids@,
                amounts@,
            ) {
                Ok(h) => result == Ok::<Event, Error>(
                    (Event::TransferBatch {
                        operator: origin,
                        from: origin,
                        to,
                        id: ids,
                        value: amounts,
                    }),
                ) && final(self)@.holdings == h,
                Err(e) => result == Err::<Event, Error>(e) && final(self)@ == old(self)@,
            },
    {
        if ids.len() != amounts.len() {
            return Err(Error::ShouldBeSameLength);
        }
        match self.move_batch(origin, to, &ids, &amounts) {
            Ok(()) => Ok(
                Event::TransferBatch {
                    operator: origin,
                    from: origin,
                    to,
                    id: ids,
                    value: amounts,
                },
            ),
            Err(e) => Err(e),
        }
    }

    /// Moves `amount` of asset `id` from `from` to `to` on behalf of
    /// `from`, by the operator `origin`. Refused as not approved unless
    /// `from` has approved `origin`; with the approval it is refused or
    /// done as a transfer by `from` would be. Nothing is changed by a
    /// refusal.
    pub fn transfer_from(
        &mut self,
        origin: AccountId,
        from: AccountId,
        to: AccountId,
        id: u64,
        amount: u64,
    ) -> (result: Result<Event, Error>)
        ensures
            final(self)@.approvals == old(self)@.approvals,
            !old(self)@.approvals.contains((from, origin)) ==> result == Err::<Event, Error>(
                Error::NotApproved,
            ) && final(self)@ == old(self)@,
            old(self)@.approvals.contains((from, origin)) ==> match transfer_result(
                old(self)@.holdings,
                from,
                to,
                id,
                amount,
            ) {
                Ok(h) => result == Ok::<Event, Error>(
                    (Event::TransferSingle {
                        operator: origin,
                        from,
                        to,
                        id,
                        value: amount,
                    }),
                ) && final(self)@.holdings == h,
                Err(e) => result == Err::<Event, Error>(e) && final(self)@ == old(self)@,
            },
    {
        if !self.approvals.get(from, origin) {
            return Err(Error::NotApproved);
        }
        match self.balances.transfer(from, to, id, amount) {
            Ok(()) => Ok(
                Event::TransferSingle {
                    operator: origin,
                    from,
                    to,
                    id,
                    value: amount,
                },
            ),
            Err(e) => Err(e),
        }
    }

    /// Moves `amounts[i]` of asset `ids[i]` from `from` to `to` on behalf
    /// of `from`, by the operator `origin`, for each `i` in order. Refused
    /// where the two lengths differ; else as not approved unless `from` has
    /// approved `origin`; else where any of the transfers, applied after
    /// those before it, would be refused. Nothing is changed by a refusal.
    pub fn transfer_batch_from(
        &mut self,
        origin: AccountId,
        from: AccountId,
        to: AccountId,
        ids: Vec<u64>,
        amounts: Vec<u64>,
    ) -> (result: Result<Event, Error>)
        ensures
            final(self)@.approvals == old(self)@.approvals,
            ids.len() != amounts.len() ==> result == Err::<Event, Error>(Error::ShouldBeSameLength)
                && final(self)@ == old(self)@,
            ids.len() == amounts.len() && !old(self)@.approvals.contains((from, origin))
                ==> result == Err::<Event, Error>(Error::NotApproved) && final(self)@ == old(self)@,
            ids.len() == amounts.len() && old(self)@.approvals.contains((from, origin))
                ==> match transfer_batch_result(old(self)@.holdings, from, to, ids@, amounts@) {
                Ok(h) => result == Ok::<Event, Error>(
                    (Event::TransferBatch {
                        operator: origin,
                        from,
                        to,
                        id: ids,
                        value: amounts,
                    }),
                ) && final(self)@.holdings == h,
                Err(e) => result == Err::<Event, Error>(e) && final(self)@ == old(self)@,
            },
    {
        if ids.len() != amounts.len() {
            return Err(Error::ShouldBeSameLength);
        }
        if !self.approvals.get(from, origin) {
            return Err(Error::NotApproved);
        }
        match self.move_batch(from, to, &ids, &amounts) {
            Ok(()) => Ok(
                Event::TransferBatch {
                    operator: origin,
                    from,
                    to,
                    id: ids,
                    value: amounts,
                },
            ),
            Err(e) => Err(e),
        }
    }

    /// Applies a batch of transfers to a working copy of the balances, and
    /// puts the copy in place only if none was refused.
    fn move_batch(
        &mut self,
        from: AccountId,
        to: AccountId,
        ids: &Vec<u64>,
        amounts: &Vec<u64>,
    ) -> (result: Result<(), Error>)
        requires
            ids.len() == amounts.len(),
        ensures
            final(self)@.approvals == old(self)@.approvals,
            match transfer_batch_result(old(self)@.holdings, from, to, ids@, amounts@) {
                Ok(h) => result is Ok && final(self)@.holdings == h,
                Err(e) => result == Err::<(), Error>(e) && final(self)@ == old(self)@,
            },
    {
        let ghost before = self@.holdings;
        let mut work = self.balances.snapshot();
        let n = ids.len();
        let mut i: usize = 0;
        while i < n
            invariant
                *self == *old(self),
                before == old(self)@.holdings,
                i <= n,
                n == ids.len(),
                n == amounts.len(),
                transfer_batch_prefix(before, from, to, ids@, amounts@, i as nat) == Ok::<
                    Holdings,
                    Error,
                >(work.holdings()),
            decreases n - i,
        {
            match work.transfer(from, to, ids[i], amounts[i]) {
                Ok(()) => {},
                Err(e) => {
                    proof {
                        lemma_transfer_batch_refusal_stays(
                            before,
                            from,
                            to,
                            ids@,
                            amounts@,
                            (i + 1) as nat,
                            n as nat,
                        );
                    }
                    return Err(e);
                },
            }
            i += 1;
        }
        self.balances = work;
        Ok(())
    }
}

impl MultiToken for Pallet {
    open spec fn holdings(&self) -> Holdings {
        self@.holdings
    }

    fn balances(&self, id: &u64, account: &AccountId) -> (amount: u64) {
        self.balances.get(*id, *account)
    }

    fn transfer_to(
        &mut self,
        origin: &AccountId,
        to: &AccountId,
        id: &u64,
        amount: &u64,
    ) -> (result: Result<(), Error>) {
        self.balances.transfer(*origin, *to, *id, *amount)
    }

    fn mint(&mut self, origin: &AccountId, id: &u64, amount: &u64) -> (result: Result<(), Error>) {
        self.balances.mint(*origin, *id, *amount)
    }
}

} // verus!
