//! The pool's arithmetic: proportions in whole numbers, the price of a swap,
//! and the terms of a deposit and of a withdrawal.

use crate::dex::Error;
use vstd::prelude::*;

verus! {

/// `x * y / d`, rounded down: the product first, then the division. There
/// is no result where the product does not fit in 64 bits, nor where `d` is
/// zero.
pub open spec fn proportion(x: u64, y: u64, d: u64) -> Result<u64, Error> {
    if x * y > u64::MAX {
        Err(Error::ArithmeticOverflow)
    } else if d == 0 {
        Err(Error::DivisionByZero)
    } else {
        Ok((x * y / (d as int)) as u64)
    }
}

/// Computes a proportion.
pub fn compute_proportion(x: u64, y: u64, d: u64) -> (result: Result<u64, Error>)
    ensures
        result == proportion(x, y, d),
{
    match x.checked_mul(y) {
        None => Err(Error::ArithmeticOverflow),
        Some(product) => {
            if d == 0 {
                Err(Error::DivisionByZero)
            } else {
                Ok(product / d)
            }
        },
    }
}

/// What a swap of `input_amount` pays out, against the reserves as they
/// stand before the trade: the share `input_amount / (input_reserve +
/// input_amount)` of the output reserve, less `fee_percent` hundredths of
/// it, each rounded down.
pub open spec fn swap_output(
    input_reserve: u64,
    output_reserve: u64,
    input_amount: u64,
    fee_percent: u64,
) -> Result<u64, Error> {
    if input_reserve + input_amount > u64::MAX {
        Err(Error::ArithmeticOverflow)
    } else {
        match proportion(output_reserve, input_amount, (input_reserve + input_amount) as u64) {
            Ok(raw) => proportion(raw, (100 - fee_percent) as u64, 100),
            Err(e) => Err(e),
        }
    }
}

/// Computes what a swap pays out.
pub fn compute_swap_output(
    input_reserve: u64,
    output_reserve: u64,
    input_amount: u64,
    fee_percent: u64,
) -> (result: Result<u64, Error>)
    requires
        fee_percent <= 100,
    ensures
        result == swap_output(input_reserve, output_reserve, input_amount, fee_percent),
{
    match input_reserve.checked_add(input_amount) {
        None => Err(Error::ArithmeticOverflow),
        Some(new_reserve) => match compute_proportion(output_reserve, input_amount, new_reserve) {
            Ok(raw) => compute_proportion(raw, 100 - fee_percent, 100),
            Err(e) => Err(e),
        },
    }
}

/// The second amount that a deposit of `first_token_amount` takes, and the
/// shares it mints: the first amount's proportion of the second reserve,
/// and of the supply, to the first reserve. Refused with a wrong ratio where
/// `second_token_amount` is below the amount taken, and with an overflow
/// where the supply would not fit in 64 bits.
pub open spec fn deposit_terms(
    reserve_a: u64,
    reserve_b: u64,
    supply: u64,
    first_token_amount: u64,
    second_token_amount: u64,
) -> Result<(u64, u64), Error> {
    match proportion(reserve_b, first_token_amount, reserve_a) {
        Err(e) => Err(e),
        Ok(required) => if second_token_amount < required {
            Err(Error::WrongRatio)
        } else {
            match proportion(first_token_amount, supply, reserve_a) {
                Err(e) => Err(e),
                Ok(minted) => if supply + minted > u64::MAX {
                    Err(Error::ArithmeticOverflow)
                } else {
                    Ok((required, minted))
                },
            }
        },
    }
}

/// Computes the terms of a deposit.
pub fn compute_deposit_terms(
    reserve_a: u64,
    reserve_b: u64,
    supply: u64,
    first_token_amount: u64,
    second_token_amount: u64,
) -> (result: Result<(u64, u64), Error>)
    ensures
        result == deposit_terms(
            reserve_a,
            reserve_b,
            supply,
            first_token_amount,
            second_token_amount,
        ),
{
    let required = match compute_proportion(reserve_b, first_token_amount, reserve_a) {
        Ok(required) => required,
        Err(e) => {
            return Err(e);
        },
    };
    if second_token_amount < required {
        return Err(Error::WrongRatio);
    }
    let minted = match compute_proportion(first_token_amount, supply, reserve_a) {
        Ok(minted) => minted,
        Err(e) => {
            return Err(e);
        },
    };
    if minted > u64::MAX - supply {
        return Err(Error::ArithmeticOverflow);
    }
    Ok((required, minted))
}

/// The two amounts that a withdrawal of `held` shares pays: the shares'
/// proportion of each reserve to the supply. Refused without shares.
pub open spec fn withdraw_terms(reserve_a: u64, reserve_b: u64, supply: u64, held: u64) -> Result<
    (u64, u64),
    Error,
> {
    if held == 0 {
        Err(Error::NoLiquidity)
    } else {
        match proportion(reserve_a, held, supply) {
            Err(e) => Err(e),
            Ok(first_token_amount) => match proportion(reserve_b, held, supply) {
                Err(e) => Err(e),
                Ok(second_token_amount) => Ok((first_token_amount, second_token_amount)),
            },
        }
    }
}

/// Computes the terms of a withdrawal.
pub fn compute_withdraw_terms(reserve_a: u64, reserve_b: u64, supply: u64, held: u64) -> (result:
    Result<(u64, u64), Error>)
    ensures
        result == withdraw_terms(reserve_a, reserve_b, supply, held),
{
    if held == 0 {
        return Err(Error::NoLiquidity);
    }
    let first_token_amount = match compute_proportion(reserve_a, held, supply) {
        Ok(amount) => amount,
        Err(e) => {
            return Err(e);
        },
    };
    let second_token_amount = match compute_proportion(reserve_b, held, supply) {
        Ok(amount) => amount,
        Err(e) => {
            return Err(e);
        },
    };
    Ok((first_token_amount, second_token_amount))
}

/// A proportion, multiplied back by its divisor, does not exceed the
/// product it was taken of.
pub proof fn lemma_proportion_rounds_down(x: u64, y: u64, d: u64)
    requires
        proportion(x, y, d) is Ok,
    ensures
        proportion(x, y, d)->Ok_0 * d <= x * y,
        y <= d ==> proportion(x, y, d)->Ok_0 <= x,
        x <= d ==> proportion(x, y, d)->Ok_0 <= y,
{
    let p = x * y;
    let q = p / (d as int);
    assert(q * d <= p) by (nonlinear_arith)
        requires
            q == p / (d as int),
            d > 0,
            p >= 0,
    ;
    if y <= d {
        assert(q <= x) by (nonlinear_arith)
            requires
                q * d <= x * y,
                y <= d,
                d > 0,
                x >= 0,
                y >= 0,
                q >= 0,
        ;
    }
    if x <= d {
        assert(q <= y) by (nonlinear_arith)
            requires
                q * d <= x * y,
                x <= d,
                d > 0,
                x >= 0,
                y >= 0,
                q >= 0,
        ;
    }
}

/// A withdrawal of no more shares than there are pays no more than the
/// reserves hold.
pub proof fn lemma_withdraw_within_reserves(reserve_a: u64, reserve_b: u64, supply: u64, held: u64)
    requires
        held <= supply,
        withdraw_terms(reserve_a, reserve_b, supply, held) is Ok,
    ensures
        withdraw_terms(reserve_a, reserve_b, supply, held)->Ok_0.0 <= reserve_a,
        withdraw_terms(reserve_a, reserve_b, supply, held)->Ok_0.1 <= reserve_b,
{
    lemma_proportion_rounds_down(reserve_a, held, supply);
    lemma_proportion_rounds_down(reserve_b, held, supply);
}

/// A swap pays out no more than the output reserve holds, and no more than
/// keeps the product of the two reserves from falling.
pub proof fn lemma_swap_output_keeps_product(
    input_reserve: u64,
    output_reserve: u64,
    input_amount: u64,
    fee_percent: u64,
)
    requires
        fee_percent <= 100,
        swap_output(input_reserve, output_reserve, input_amount, fee_percent) is Ok,
    ensures
        ({
            let quote = swap_output(input_reserve, output_reserve, input_amount, fee_percent);
            let output = quote->Ok_0;
            &&& output <= output_reserve
            &&& output_reserve <= input_reserve + input_amount ==> output <= input_amount
            &&& (input_reserve + input_amount) * (output_reserve - output) >= input_reserve
                * output_reserve
        }),
{
    let total = (input_reserve + input_amount) as u64;
    let raw = proportion(output_reserve, input_amount, total)->Ok_0;
    let output = proportion(raw, (100 - fee_percent) as u64, 100)->Ok_0;
    lemma_proportion_rounds_down(output_reserve, input_amount, total);
    lemma_proportion_rounds_down(raw, (100 - fee_percent) as u64, 100);
    assert(output <= raw);
    assert(total * (output_reserve - output) >= input_reserve * output_reserve)
        by (nonlinear_arith)
        requires
            raw * total <= output_reserve * input_amount,
            output <= raw,
            total == input_reserve + input_amount,
            total >= 0,
            output >= 0,
    ;
}

} // verus!
