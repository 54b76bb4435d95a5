//! The market maker: one pool of two assets, priced by the constant-product
//! rule, whose reserves are the balances of the pool's account in a ledger.
//!
//! The pool keeps no balance of its own. Every operation reads the reserves
//! from the ledger it is handed, decides, and only then moves anything: an
//! operation that is refused changes neither the ledger nor the pool.

use crate::dex::pricing::{
    compute_deposit_terms, compute_swap_output, compute_withdraw_terms, deposit_terms,
    lemma_swap_output_keeps_product, swap_output, withdraw_terms,
};
use crate::dex::settlement::{both_transferred, settle, Transfer};
use crate::dex::shares::{
    lemma_no_shares_below, lemma_share_within_total, lemma_total_shares_insert, no_shares,
    total_shares, ShareBook, Shares,
};
use crate::multi_token::holdings::Holdings;
use crate::multi_token::multitoken::MultiToken;
use crate::multi_token::AccountId;
use vstd::prelude::*;

pub mod pricing;
pub mod settlement;
pub mod shares;

verus! {

/// Why a pool operation was refused.
#[derive(Clone, Copy, Debug, PartialEq, Eq, Structural)]
pub enum Error {
    /// The second amount offered is below what the pool's ratio asks for.
    WrongRatio,
    /// The account holds no share of the pool.
    NoLiquidity,
    /// There is no pool yet.
    PoolUninitialized,
    /// There is a pool already.
    AlreadyInitialized,
    /// A product or a sum does not fit in 64 bits.
    ArithmeticOverflow,
    /// A proportion of an empty reserve or supply was asked for.
    DivisionByZero,
    /// The ledger refused a transfer.
    Token(crate::multi_token::Error),
}

/// What a successful operation did, for the host to record.
#[derive(Clone, Copy, Debug, PartialEq, Eq, Structural)]
pub enum Event {
    /// `account` set the pool up on `pool_account` with the two amounts, and
    /// got `liquidity` shares.
    PoolInitialized {
        account: AccountId,
        pool_account: AccountId,
        first_token_id: u64,
        first_token_amount: u64,
        second_token_id: u64,
        second_token_amount: u64,
        liquidity: u64,
    },
    /// `account` paid `input_amount` of `input_token_id` and got
    /// `output_amount` of `output_token_id`.
    Swapped {
        account: AccountId,
        input_token_id: u64,
        input_amount: u64,
        output_token_id: u64,
        output_amount: u64,
    },
    /// `account` paid the two amounts into the pool and got `liquidity`
    /// shares.
    Deposited {
        account: AccountId,
        first_token_amount: u64,
        second_token_amount: u64,
        liquidity: u64,
    },
    /// `account` gave up `liquidity` shares and got the two amounts out of
    /// the pool.
    Withdrawn {
        account: AccountId,
        first_token_amount: u64,
        second_token_amount: u64,
        liquidity: u64,
    },
}

/// What is configured once, when the market maker is set up.
#[derive(Clone, Copy, Debug, PartialEq, Eq, Structural)]
pub struct Config {
    /// The hundredths of a swap's output that stay in the pool: 0 to 100.
    pub fee: u64,
}

/// The one pool.
#[derive(Clone, Copy, Debug, PartialEq, Eq, Structural)]
pub struct Pool {
    /// The account whose balances are the reserves.
    pub pool_account: AccountId,
    /// The first asset.
    pub asset_a_id: u64,
    /// The second asset.
    pub asset_b_id: u64,
    /// The shares in existence.
    pub lp_total_supply: u64,
}

impl Pool {
    /// The asset that a swap of `token_id` pays out: the second for the
    /// first, the first for any other.
    pub open spec fn other_asset(self, token_id: u64) -> u64 {
        if token_id == self.asset_a_id {
            self.asset_b_id
        } else {
            self.asset_a_id
        }
    }

    /// This pool with another number of shares.
    pub open spec fn with_supply(self, supply: u64) -> Pool {
        Pool { lp_total_supply: supply, ..self }
    }
}

/// The market maker as contracts see it.
pub ghost struct State {
    /// The fee, in hundredths.
    pub fee: u64,
    /// The pool, once there is one.
    pub pool: Option<Pool>,
    /// The shares that every account holds; zero where it holds none.
    pub shares: Shares,
}

impl State {
    /// The fee is a percentage, and the shares in existence are the sum of
    /// the shares held; without a pool nobody holds any.
    pub open spec fn wf(self) -> bool {
        &&& self.fee <= 100
        &&& match self.pool {
            Some(pool) => pool.lp_total_supply == total_shares(self.shares),
            None => self.shares == no_shares(),
        }
    }

    /// The fee is that of `before`; and if `before` has a pool, this is the
    /// same pool, on the same account and of the same two assets.
    pub open spec fn continues(self, before: State) -> bool {
        &&& self.fee == before.fee
        &&& match before.pool {
            Some(pool) => self.pool is Some && self.pool->Some_0.with_supply(pool.lp_total_supply)
                == pool,
            None => true,
        }
    }
}

/// What an operation that is not refused leaves behind.
pub ghost struct Outcome {
    /// The market maker after it.
    pub state: State,
    /// The ledger's balances after it.
    pub holdings: Holdings,
    /// What the host is told.
    pub event: Event,
}

/// Setting the pool up: refused where there is one already, and where the
/// ledger refuses one of the two payments of `who` to `pool_account`. The
/// shares of `who`, and the supply, become the first amount.
pub open spec fn init_result(
    s: State,
    h: Holdings,
    who: AccountId,
    pool_account: AccountId,
    first_token_id: u64,
    first_token_amount: u64,
    second_token_id: u64,
    second_token_amount: u64,
) -> Result<Outcome, Error> {
    if s.pool is Some {
        Err(Error::AlreadyInitialized)
    } else {
        match both_transferred(
            h,
            Transfer {
                from: who,
                to: pool_account,
                id: first_token_id,
                amount: first_token_amount,
            },
            Transfer {
                from: who,
                to: pool_account,
                id: second_token_id,
                amount: second_token_amount,
            },
        ) {
            Ok(holdings) => Ok(
                Outcome {
                    state: State {
                        fee: s.fee,
                        pool: Some(
                            Pool {
                                pool_account,
                                asset_a_id: first_token_id,
                                asset_b_id: second_token_id,
                                lp_total_supply: first_token_amount,
                            },
                        ),
                        shares: s.shares.insert(who, first_token_amount),
                    },
                    holdings,
                    event: Event::PoolInitialized {
                        account: who,
                        pool_account,
                        first_token_id,
                        first_token_amount,
                        second_token_id,
                        second_token_amount,
                        liquidity: first_token_amount,
                    },
                },
            ),
            Err(e) => Err(e),
        }
    }
}

/// A swap of `amount` of `token_id`: priced against the pool's balances of
/// that asset and of the other as they stand, then paid in by `who` and
/// paid out by the pool. Refused without a pool, where the price cannot be
/// computed, and where the ledger refuses one of the two payments. The
/// market maker itself stays as it is.
pub open spec fn swap_result(
    s: State,
    h: Holdings,
    who: AccountId,
    token_id: u64,
    amount: u64,
) -> Result<Outcome, Error> {
    match s.pool {
        None => Err(Error::PoolUninitialized),
        Some(pool) => {
            let output_id = pool.other_asset(token_id);
            match swap_output(
                h[(token_id, pool.pool_account)],
                h[(output_id, pool.pool_account)],
                amount,
                s.fee,
            ) {
                Err(e) => Err(e),
                Ok(output) => match both_transferred(
                    h,
                    Transfer { from: who, to: pool.pool_account, id: token_id, amount },
                    Transfer { from: pool.pool_account, to: who, id: output_id, amount: output },
                ) {
                    Err(e) => Err(e),
                    Ok(holdings) => Ok(
                        Outcome {
                            state: s,
                            holdings,
                            event: Event::Swapped {
                                account: who,
                                input_token_id: token_id,
                                input_amount: amount,
                                output_token_id: output_id,
                                output_amount: output,
                            },
                        },
                    ),
                },
            }
        },
    }
}

/// A deposit: `who` pays the first amount and the second amount that the
/// ratio of the reserves asks for, not more, and gets the shares minted.
/// Refused without a pool, where the terms are, and where the ledger
/// refuses one of the two payments.
pub open spec fn deposit_result(
    s: State,
    h: Holdings,
    who: AccountId,
    first_token_amount: u64,
    second_token_amount: u64,
) -> Result<Outcome, Error> {
    match s.pool {
        None => Err(Error::PoolUninitialized),
        Some(pool) => match deposit_terms(
            h[(pool.asset_a_id, pool.pool_account)],
            h[(pool.asset_b_id, pool.pool_account)],
            pool.lp_total_supply,
            first_token_amount,
            second_token_amount,
        ) {
            Err(e) => Err(e),
            Ok((required, minted)) => match both_transferred(
                h,
                Transfer {
                    from: who,
                    to: pool.pool_account,
                    id: pool.asset_a_id,
                    amount: first_token_amount,
                },
                Transfer {
                    from: who,
                    to: pool.pool_account,
                    id: pool.asset_b_id,
                    amount: required,
                },
            ) {
                Err(e) => Err(e),
                Ok(holdings) => Ok(
                    Outcome {
                        state: State {
                            fee: s.fee,
                            pool: Some(
                                pool.with_supply((pool.lp_total_supply + minted) as u64),
                            ),
                            shares: s.shares.insert(who, (s.shares[who] + minted) as u64),
                        },
                        holdings,
                        event: Event::Deposited {
                            account: who,
                            first_token_amount,
                            second_token_amount: required,
                            liquidity: minted,
                        },
                    },
                ),
            },
        },
    }
}

/// A withdrawal: `who` gives up all its shares and is paid their proportion
/// of each reserve. Refused without a pool, without shares, where a
/// proportion cannot be computed, and where the ledger refuses one of the
/// two payments.
pub open spec fn withdraw_result(s: State, h: Holdings, who: AccountId) -> Result<Outcome, Error> {
    match s.pool {
        None => Err(Error::PoolUninitialized),
        Some(pool) => match withdraw_terms(
            h[(pool.asset_a_id, pool.pool_account)],
            h[(pool.asset_b_id, pool.pool_account)],
            pool.lp_total_supply,
            s.shares[who],
        ) {
            Err(e) => Err(e),
            Ok((first_token_amount, second_token_amount)) => match both_transferred(
                h,
                Transfer {
                    from: pool.pool_account,
                    to: who,
                    id: pool.asset_a_id,
                    amount: first_token_amount,
                },
                Transfer {
                    from: pool.pool_account,
                    to: who,
                    id: pool.asset_b_id,
                    amount: second_token_amount,
                },
            ) {
                Err(e) => Err(e),
                Ok(holdings) => Ok(
                    Outcome {
                        state: State {
                            fee: s.fee,
                            pool: Some(
                                pool.with_supply((pool.lp_total_supply - s.shares[who]) as u64),
                            ),
                            shares: s.shares.insert(who, 0),
                        },
                        holdings,
                        event: Event::Withdrawn {
                            account: who,
                            first_token_amount,
                            second_token_amount,
                            liquidity: s.shares[who],
                        },
                    },
                ),
            },
        },
    }
}

/// The market maker.
pub struct Pallet {
    fee: u64,
    pool: Option<Pool>,
    shares: ShareBook,
}

impl View for Pallet {
    type V = State;

    closed spec fn view(&self) -> State {
        State { fee: self.fee, pool: self.pool, shares: self.shares.shares() }
    }
}

impl Pallet {
    /// A market maker without a pool, if the fee configured is a
    /// percentage.
    pub fn new(config: Config) -> (made: Option<Self>)
        ensures
            config.fee > 100 ==> made is None,
            config.fee <= 100 ==> made is Some && made->Some_0@ == (State {
                fee: config.fee,
                pool: None,
                shares: no_shares(),
            }),
            made is Some ==> made->Some_0@.wf(),
    {
        if config.fee > 100 {
            None
        } else {
            Some(Pallet { fee: config.fee, pool: None, shares: ShareBook::new() })
        }
    }

    /// The fee, in hundredths.
    pub fn fee(&self) -> (fee: u64)
        ensures
            fee == self@.fee,
    {
        self.fee
    }

    /// The pool, once there is one.
    pub fn pool(&self) -> (pool: Option<Pool>)
        ensures
            pool == self@.pool,
    {
        self.pool
    }

    /// The shares that `account` holds.
    pub fn balance_of(&self, account: AccountId) -> (held: u64)
        ensures
            held == self@.shares[account],
    {
        self.shares.get(account)
    }

    /// Sets the pool up on `pool_address`, with the two amounts paid by
    /// `origin`, who gets as many shares as the first amount.
    pub fn init<L: MultiToken>(
        &mut self,
        ledger: &mut L,
        origin: AccountId,
        pool_address: AccountId,
        first_token_id: u64,
        first_token_amount: u64,
        second_token_id: u64,
        second_token_amount: u64,
    ) -> (result: Result<Event, Error>)
        requires
            old(self)@.wf(),
        ensures
            final(self)@.wf(),
            final(self)@.continues(old(self)@),
            match init_result(
                old(self)@,
                old(ledger).holdings(),
                origin,
                pool_address,
                first_token_id,
                first_token_amount,
                second_token_id,
                second_token_amount,
            ) {
                Ok(outcome) => {
                    &&& result == Ok::<Event, Error>(outcome.event)
                    &&& final(self)@ == outcome.state
                    &&& final(ledger).holdings() == outcome.holdings
                },
                Err(e) => {
                    &&& result == Err::<Event, Error>(e)
                    &&& final(self)@ == old(self)@
                    &&& final(ledger).holdings() == old(ledger).holdings()
                },
            },
    {
        if self.pool.is_some() {
            return Err(Error::AlreadyInitialized);
        }
        let first = Transfer {
            from: origin,
            to: pool_address,
            id: first_token_id,
            amount: first_token_amount,
        };
        let second = Transfer {
            from: origin,
            to: pool_address,
            id: second_token_id,
            amount: second_token_amount,
        };
        match settle(ledger, first, second) {
            Ok(()) => {},
            Err(e) => {
                return Err(e);
            },
        }
        proof {
            lemma_no_shares_below(0x1_0000_0000_0000_0000);
            lemma_total_shares_insert(no_shares(), origin, first_token_amount);
        }
        self.shares.set(origin, first_token_amount);
        self.pool = Some(
            Pool {
                pool_account: pool_address,
                asset_a_id: first_token_id,
                asset_b_id: second_token_id,
                lp_total_supply: first_token_amount,
            },
        );
        Ok(
            Event::PoolInitialized {
                account: origin,
                pool_account: pool_address,
                first_token_id,
                first_token_amount,
                second_token_id,
                second_token_amount,
                liquidity: first_token_amount,
            },
        )
    }

    /// Swaps `amount` of `token_id`, paid by `origin`, for the pool's
    /// other asset. The product of the pool's two balances involved does
    /// not fall.
    pub fn swap_token<L: MultiToken>(
        &self,
        ledger: &mut L,
        origin: AccountId,
        token_id: u64,
        amount: u64,
    ) -> (result: Result<Event, Error>)
        requires
            self@.wf(),
        ensures
            match swap_result(self@, old(ledger).holdings(), origin, token_id, amount) {
                Ok(outcome) => {
                    &&& result == Ok::<Event, Error>(outcome.event)
                    &&& final(ledger).holdings() == outcome.holdings
                },
                Err(e) => {
                    &&& result == Err::<Event, Error>(e)
                    &&& final(ledger).holdings() == old(ledger).holdings()
                },
            },
            result is Ok ==> ({
                let pool = self@.pool->Some_0;
                let paid_in = (token_id, pool.pool_account);
                let paid_out = (pool.other_asset(token_id), pool.pool_account);
                let before = old(ledger).holdings();
                let after = final(ledger).holdings();
                after[paid_in] * after[paid_out] >= before[paid_in] * before[paid_out]
            }),
    {
        let pool = match self.pool {
            Some(pool) => pool,
            None => {
                return Err(Error::PoolUninitialized);
            },
        };
        let output_id = if token_id == pool.asset_a_id {
            pool.asset_b_id
        } else {
            pool.asset_a_id
        };
        let input_reserve = ledger.balances(&token_id, &pool.pool_account);
        let output_reserve = ledger.balances(&output_id, &pool.pool_account);
        let output = match compute_swap_output(input_reserve, output_reserve, amount, self.fee) {
            Ok(output) => output,
            Err(e) => {
                return Err(e);
            },
        };
        let pay_in = Transfer { from: origin, to: pool.pool_account, id: token_id, amount };
        let pay_out = Transfer {
            from: pool.pool_account,
            to: origin,
            id: output_id,
            amount: output,
        };
        match settle(ledger, pay_in, pay_out) {
            Ok(()) => {},
            Err(e) => {
                return Err(e);
            },
        }
        proof {
            lemma_swap_keeps_product(self@, old(ledger).holdings(), origin, token_id, amount);
        }
        Ok(
            Event::Swapped {
                account: origin,
                input_token_id: token_id,
                input_amount: amount,
                output_token_id: output_id,
                output_amount: output,
            },
        )
    }

    /// Pays `first_token_amount` of the first asset, and of the second
    /// what the ratio of the reserves asks for, from `origin` into the
    /// pool, and mints shares to `origin` in proportion. What
    /// `second_token_amount` offers beyond the amount taken stays with
    /// `origin`.
    pub fn deposit<L: MultiToken>(
        &mut self,
        ledger: &mut L,
        origin: AccountId,
        first_token_amount: u64,
        second_token_amount: u64,
    ) -> (result: Result<Event, Error>)
        requires
            old(self)@.wf(),
        ensures
            final(self)@.wf(),
            final(self)@.continues(old(self)@),
            match deposit_result(
                old(self)@,
                old(ledger).holdings(),
                origin,
                first_token_amount,
                second_token_amount,
            ) {
                Ok(outcome) => {
                    &&& result == Ok::<Event, Error>(outcome.event)
                    &&& final(self)@ == outcome.state
                    &&& final(ledger).holdings() == outcome.holdings
                },
                Err(e) => {
                    &&& result == Err::<Event, Error>(e)
                    &&& final(self)@ == old(self)@
                    &&& final(ledger).holdings() == old(ledger).holdings()
                },
            },
    {
        let pool = match self.pool {
            Some(pool) => pool,
            None => {
                return Err(Error::PoolUninitialized);
            },
        };
        let reserve_a = ledger.balances(&pool.asset_a_id, &pool.pool_account);
        let reserve_b = ledger.balances(&pool.asset_b_id, &pool.pool_account);
        let (required, minted) = match compute_deposit_terms(
            reserve_a,
            reserve_b,
            pool.lp_total_supply,
            first_token_amount,
            second_token_amount,
        ) {
            Ok(terms) => terms,
            Err(e) => {
                return Err(e);
            },
        };
        let first = Transfer {
            from: origin,
            to: pool.pool_account,
            id: pool.asset_a_id,
            amount: first_token_amount,
        };
        let second = Transfer {
            from: origin,
            to: pool.pool_account,
            id: pool.asset_b_id,
            amount: required,
        };
        match settle(ledger, first, second) {
            Ok(()) => {},
            Err(e) => {
                return Err(e);
            },
        }
        let held = self.shares.get(origin);
        proof {
            lemma_share_within_total(self@.shares, origin);
            lemma_total_shares_insert(self@.shares, origin, (held + minted) as u64);
        }
        self.shares.set(origin, held + minted);
        self.pool = Some(
            Pool {
                pool_account: pool.pool_account,
                asset_a_id: pool.asset_a_id,
                asset_b_id: pool.asset_b_id,
                lp_total_supply: pool.lp_total_supply + minted,
            },
        );
        Ok(
            Event::Deposited {
                account: origin,
                first_token_amount,
                second_token_amount: required,
                liquidity: minted,
            },
        )
    }

    /// Pays `origin` the proportion of both reserves that its shares stand
    /// for, and cancels all of them.
    pub fn withdraw<L: MultiToken>(&mut self, ledger: &mut L, origin: AccountId) -> (result:
        Result<Event, Error>)
        requires
            old(self)@.wf(),
        ensures
            final(self)@.wf(),
            final(self)@.continues(old(self)@),
            match withdraw_result(old(self)@, old(ledger).holdings(), origin) {
                Ok(outcome) => {
                    &&& result == Ok::<Event, Error>(outcome.event)
                    &&& final(self)@ == outcome.state
                    &&& final(ledger).holdings() == outcome.holdings
                },
                Err(e) => {
                    &&& result == Err::<Event, Error>(e)
                    &&& final(self)@ == old(self)@
                    &&& final(ledger).holdings() == old(ledger).holdings()
                },
            },
    {
        let pool = match self.pool {
            Some(pool) => pool,
            None => {
                return Err(Error::PoolUninitialized);
            },
        };
        let held = self.shares.get(origin);
        let reserve_a = ledger.balances(&pool.asset_a_id, &pool.pool_account);
        let reserve_b = ledger.balances(&pool.asset_b_id, &pool.pool_account);
        let (first_token_amount, second_token_amount) = match compute_withdraw_terms(
            reserve_a,
            reserve_b,
            pool.lp_total_supply,
            held,
        ) {
            Ok(terms) => terms,
            Err(e) => {
                return Err(e);
            },
        };
        let first = Transfer {
            from: pool.pool_account,
            to: origin,
            id: pool.asset_a_id,
            amount: first_token_amount,
        };
        let second = Transfer {
            from: pool.pool_account,
            to: origin,
            id: pool.asset_b_id,
            amount: second_token_amount,
        };
        match settle(ledger, first, second) {
            Ok(()) => {},
            Err(e) => {
                return Err(e);
            },
        }
        proof {
            lemma_share_within_total(self@.shares, origin);
            lemma_total_shares_insert(self@.shares, origin, 0);
        }
        self.shares.set(origin, 0);
        self.pool = Some(
            Pool {
                pool_account: pool.pool_account,
                asset_a_id: pool.asset_a_id,
                asset_b_id: pool.asset_b_id,
                lp_total_supply: pool.lp_total_supply - held,
            },
        );
        Ok(
            Event::Withdrawn {
                account: origin,
                first_token_amount,
                second_token_amount,
                liquidity: held,
            },
        )
    }
}

/// After a swap, the product of the pool's balances of the asset paid in and
/// of the asset paid out is no smaller than before: what rounding and the
/// fee keep back stays in the pool.
pub proof fn lemma_swap_keeps_product(
    s: State,
    h: Holdings,
    who: AccountId,
    token_id: u64,
    amount: u64,
)
    requires
        s.wf(),
        swap_result(s, h, who, token_id, amount) is Ok,
    ensures
        ({
            let pool = s.pool->Some_0;
            let output_id = pool.other_asset(token_id);
            let after = swap_result(s, h, who, token_id, amount)->Ok_0.holdings;
            after[(token_id, pool.pool_account)] * after[(output_id, pool.pool_account)] >= h[(
                token_id,
                pool.pool_account,
            )] * h[(output_id, pool.pool_account)]
        }),
{
    let pool = s.pool->Some_0;
    let output_id = pool.other_asset(token_id);
    let after = swap_result(s, h, who, token_id, amount)->Ok_0.holdings;
    let x = h[(token_id, pool.pool_account)];
    let y = h[(output_id, pool.pool_account)];
    let output = swap_output(x, y, amount, s.fee)->Ok_0;
    lemma_swap_output_keeps_product(x, y, amount, s.fee);
    if who == pool.pool_account {
        assert(after[(token_id, pool.pool_account)] == x);
        assert(after[(output_id, pool.pool_account)] == y);
    } else if token_id == output_id {
        assert(after[(token_id, pool.pool_account)] == x + amount - output);
        assert((x + amount - output) * (x + amount - output) >= x * x) by (nonlinear_arith)
            requires
                output <= amount,
                x >= 0,
        ;
    } else {
        assert(after[(token_id, pool.pool_account)] == x + amount);
        assert(after[(output_id, pool.pool_account)] == y - output);
    }
}

} // verus!
