//! The pair's arithmetic: fees, the constant-product swap, and the
//! share computations for adding and withdrawing liquidity. Amounts are
//! `u128`; every operation that would overflow or divide by zero is
//! excluded by a `requires`, and a checked variant returns `None` on
//! exactly those inputs.

use vstd::prelude::*;

verus! {

/// Fee percentages are expressed in units of 1/10000 of the amount.
pub const FEE_SCALING_FACTOR: u128 = 10_000;

/// The fee taken from `amount` at `fee_percent` basis points (rounded down).
pub open spec fn fee_amount(amount: int, fee_percent: int) -> int {
    amount * fee_percent / 10000
}

/// `value * numerator / denominator`, rounded down, computed without an intermediate bound.
pub open spec fn ratio(value: int, numerator: int, denominator: int) -> int {
    value * numerator / denominator
}

/// `multiply_ratio` is defined: a nonzero denominator and a result that fits in `u128`.
pub open spec fn ratio_defined(value: int, numerator: int, denominator: int) -> bool {
    denominator != 0 && ratio(value, numerator, denominator) <= u128::MAX
}

/// What is left of `amount_in` for the pool once both fees are taken.
pub open spec fn swap_net_input(amount_in: int, protocol_fee_percent: int, lp_fee_percent: int) -> int {
    amount_in - fee_amount(amount_in, protocol_fee_percent) - fee_amount(amount_in, lp_fee_percent)
}

/// The constant-product output for `net_in` sold into reserves `reserve_in`/`reserve_out`.
pub open spec fn swap_output(reserve_in: int, reserve_out: int, net_in: int) -> int {
    reserve_out * net_in / (reserve_in + net_in)
}

/// The swap amount can be computed in `u128` without overflow, underflow or division by zero.
pub open spec fn swap_defined(
    reserve_in: u128,
    reserve_out: u128,
    amount_in: u128,
    protocol_fee_percent: u128,
    lp_fee_percent: u128,
) -> bool {
    let net = swap_net_input(amount_in as int, protocol_fee_percent as int, lp_fee_percent as int);
    &&& amount_in * protocol_fee_percent <= u128::MAX
    &&& amount_in * lp_fee_percent <= u128::MAX
    &&& 0 <= net
    &&& reserve_out * net <= u128::MAX
    &&& reserve_in + net <= u128::MAX
    &&& 0 < reserve_in + net
}

/// The amount paid out by a swap of `amount_in` against reserves `reserve_in`/`reserve_out`.
pub open spec fn swap_amount(
    reserve_in: int,
    reserve_out: int,
    amount_in: int,
    protocol_fee_percent: int,
    lp_fee_percent: int,
) -> int {
    swap_output(
        reserve_in,
        reserve_out,
        swap_net_input(amount_in, protocol_fee_percent, lp_fee_percent),
    )
}

/// The smaller of two amounts.
pub open spec fn min_amount(a: int, b: int) -> int {
    if a <= b {
        a
    } else {
        b
    }
}

/// Liquidity tokens owed for depositing `amount0`/`amount1` into reserves
/// `reserve0`/`reserve1` when `total_supply` liquidity tokens exist.
pub open spec fn liquidity_for(
    amount0: int,
    amount1: int,
    total_supply: int,
    reserve0: int,
    reserve1: int,
) -> int {
    if total_supply == 0 {
        min_amount(amount0, amount1)
    } else {
        min_amount(ratio(amount0, total_supply, reserve0), ratio(amount1, total_supply, reserve1))
    }
}

/// The liquidity computation is defined.
pub open spec fn liquidity_defined(
    amount0: u128,
    amount1: u128,
    total_supply: u128,
    reserve0: u128,
    reserve1: u128,
) -> bool {
    total_supply == 0 || (ratio_defined(amount0 as int, total_supply as int, reserve0 as int)
        && ratio_defined(amount1 as int, total_supply as int, reserve1 as int))
}

/// Withdrawing `lp_amount` of `total_supply` is defined for both reserves.
pub open spec fn withdrawal_defined(
    lp_amount: u128,
    reserve0: u128,
    reserve1: u128,
    total_supply: u128,
) -> bool {
    &&& total_supply != 0
    &&& ratio_defined(lp_amount as int, reserve0 as int, total_supply as int)
    &&& ratio_defined(lp_amount as int, reserve1 as int, total_supply as int)
}

/// `cosmwasm_std::Uint128::checked_multiply_ratio`. Its source computes
/// `value * numerator` in 256 bits, divides by `denominator` rounding down,
/// and returns the quotient when the denominator is nonzero and the quotient
/// fits in 128 bits; an error otherwise. The contract says exactly that.
#[verifier::external_body]
fn checked_multiply_ratio(value: u128, numerator: u128, denominator: u128) -> (r: Option<u128>)
    ensures
        r is Some <==> ratio_defined(value as int, numerator as int, denominator as int),
        r matches Some(v) ==> v == ratio(value as int, numerator as int, denominator as int),
{
    match cosmwasm_std::Uint128::new(value).checked_multiply_ratio(numerator, denominator) {
        Ok(v) => Some(v.u128()),
        Err(_) => None,
    }
}

/// `value * numerator / denominator` rounded down, with a 256-bit intermediate product.
pub fn multiply_ratio(value: u128, numerator: u128, denominator: u128) -> (r: u128)
    requires
        ratio_defined(value as int, numerator as int, denominator as int),
    ensures
        r == ratio(value as int, numerator as int, denominator as int),
{
    match checked_multiply_ratio(value, numerator, denominator) {
        Some(v) => v,
        None => 0,
    }
}

/// The protocol's share of `amount_in`: `amount_in * fee_percent / 10000`.
pub fn get_protocol_fees(amount_in: u128, fee_percent: u128) -> (r: u128)
    requires
        amount_in * fee_percent <= u128::MAX,
    ensures
        r == fee_amount(amount_in as int, fee_percent as int),
{
    amount_in * fee_percent / FEE_SCALING_FACTOR
}

/// The constant-product swap amount, or `None` exactly where the
/// `u128` computation would overflow, underflow or divide by zero.
pub fn checked_swap_amount(
    reserve_in: u128,
    reserve_out: u128,
    amount_in: u128,
    protocol_fee_percent: u128,
    lp_fee_percent: u128,
) -> (r: Option<u128>)
    ensures
        r is Some <==> swap_defined(reserve_in, reserve_out, amount_in, protocol_fee_percent, lp_fee_percent),
        r matches Some(v) ==> v == swap_amount(
            reserve_in as int,
            reserve_out as int,
            amount_in as int,
            protocol_fee_percent as int,
            lp_fee_percent as int,
        ),
{
    let p = match amount_in.checked_mul(protocol_fee_percent) {
        Some(p) => p,
        None => return None,
    };
    let l = match amount_in.checked_mul(lp_fee_percent) {
        Some(l) => l,
        None => return None,
    };
    let protocol_fee = p / FEE_SCALING_FACTOR;
    let lp_fee = l / FEE_SCALING_FACTOR;
    let after_protocol = match amount_in.checked_sub(protocol_fee) {
        Some(v) => v,
        None => return None,
    };
    let net = match after_protocol.checked_sub(lp_fee) {
        Some(v) => v,
        None => return None,
    };
    let numerator = match reserve_out.checked_mul(net) {
        Some(v) => v,
        None => return None,
    };
    let denominator = match reserve_in.checked_add(net) {
        Some(v) => v,
        None => return None,
    };
    if denominator == 0 {
        return None;
    }
    Some(numerator / denominator)
}

/// The constant-product swap amount:
/// `reserve_out * net / (reserve_in + net)` where `net` is `amount_in`
/// less the protocol fee and the liquidity-provider fee.
pub fn calculate_swap_amount(
    reserve_in: u128,
    reserve_out: u128,
    amount_in: u128,
    protocol_fee_percent: u128,
    lp_fee_percent: u128,
) -> (r: u128)
    requires
        swap_defined(reserve_in, reserve_out, amount_in, protocol_fee_percent, lp_fee_percent),
    ensures
        r == swap_amount(
            reserve_in as int,
            reserve_out as int,
            amount_in as int,
            protocol_fee_percent as int,
            lp_fee_percent as int,
        ),
{
    let protocol_fee = get_protocol_fees(amount_in, protocol_fee_percent);
    let lp_fee = amount_in * lp_fee_percent / FEE_SCALING_FACTOR;
    let net = amount_in - protocol_fee - lp_fee;
    reserve_out * net / (reserve_in + net)
}

/// The liquidity tokens owed for a deposit, or `None` exactly where a
/// share computation would divide by zero or overflow.
pub fn checked_liquidity_for(
    amount0: u128,
    amount1: u128,
    total_supply: u128,
    reserve0: u128,
    reserve1: u128,
) -> (r: Option<u128>)
    ensures
        r is Some <==> liquidity_defined(amount0, amount1, total_supply, reserve0, reserve1),
        r matches Some(v) ==> v == liquidity_for(
            amount0 as int,
            amount1 as int,
            total_supply as int,
            reserve0 as int,
            reserve1 as int,
        ),
{
    if total_supply == 0 {
        return Some(if amount0 <= amount1 { amount0 } else { amount1 });
    }
    let share0 = match checked_multiply_ratio(amount0, total_supply, reserve0) {
        Some(v) => v,
        None => return None,
    };
    let share1 = match checked_multiply_ratio(amount1, total_supply, reserve1) {
        Some(v) => v,
        None => return None,
    };
    Some(if share0 <= share1 { share0 } else { share1 })
}

/// The liquidity tokens owed for depositing `amount0`/`amount1`: the smaller
/// of the two amounts for the first deposit, otherwise the smaller of the two
/// proportional shares `amount_i * total_supply / reserve_i`.
pub fn liquidity_to_mint(
    amount0: u128,
    amount1: u128,
    total_supply: u128,
    reserve0: u128,
    reserve1: u128,
) -> (r: u128)
    requires
        liquidity_defined(amount0, amount1, total_supply, reserve0, reserve1),
    ensures
        r == liquidity_for(
            amount0 as int,
            amount1 as int,
            total_supply as int,
            reserve0 as int,
            reserve1 as int,
        ),
{
    if total_supply == 0 {
        if amount0 <= amount1 {
            amount0
        } else {
            amount1
        }
    } else {
        let share0 = multiply_ratio(amount0, total_supply, reserve0);
        let share1 = multiply_ratio(amount1, total_supply, reserve1);
        if share0 <= share1 {
            share0
        } else {
            share1
        }
    }
}

/// The amounts of both reserves returned for `lp_amount` liquidity tokens,
/// or `None` exactly where the computation is undefined.
pub fn checked_withdrawal_amounts(
    lp_amount: u128,
    reserve0: u128,
    reserve1: u128,
    total_supply: u128,
) -> (r: Option<(u128, u128)>)
    ensures
        r is Some <==> withdrawal_defined(lp_amount, reserve0, reserve1, total_supply),
        r matches Some(v) ==> v.0 == ratio(lp_amount as int, reserve0 as int, total_supply as int)
            && v.1 == ratio(lp_amount as int, reserve1 as int, total_supply as int),
{
    if total_supply == 0 {
        return None;
    }
    let out0 = match checked_multiply_ratio(lp_amount, reserve0, total_supply) {
        Some(v) => v,
        None => return None,
    };
    let out1 = match checked_multiply_ratio(lp_amount, reserve1, total_supply) {
        Some(v) => v,
        None => return None,
    };
    Some((out0, out1))
}

/// The amounts of both reserves returned for `lp_amount` liquidity tokens:
/// `lp_amount * reserve_i / total_supply`.
pub fn withdrawal_amounts(lp_amount: u128, reserve0: u128, reserve1: u128, total_supply: u128) -> (r: (
    u128,
    u128,
))
    requires
        withdrawal_defined(lp_amount, reserve0, reserve1, total_supply),
    ensures
        r.0 == ratio(lp_amount as int, reserve0 as int, total_supply as int),
        r.1 == ratio(lp_amount as int, reserve1 as int, total_supply as int),
{
    (multiply_ratio(lp_amount, reserve0, total_supply), multiply_ratio(lp_amount, reserve1, total_supply))
}

} // verus!
