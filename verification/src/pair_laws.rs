//! What the pair's operations do, stated over their inputs and results: the
//! requests a swap and a deposit accept, which asset every transfer moves,
//! to whom and how much, and the amounts a swap, a deposit and a withdrawal
//! compute.

use vstd::prelude::*;
use crate::math::{fee_amount, liquidity_for, ratio, swap_defined};
use crate::pair::{
    deposit_liquidity, fee_message, is_pair_of, pull_messages, payout_message, swap_amount_for,
    swap_error, swap_messages, swap_request_aborts, swap_request_error, CosmosAction, Coin, Fees,
    PairError, PairInfo,
};
use crate::token::{AssetId, Token, TokenInfo};

verus! {

/// The asset a transfer moves: the CW20 contract it calls, or the denomination it sends.
pub open spec fn moved_asset(a: CosmosAction) -> AssetId {
    match a {
        CosmosAction::Cw20TransferFrom { contract_addr, .. } => AssetId::Cw20(contract_addr@),
        CosmosAction::Cw20Transfer { contract_addr, .. } => AssetId::Cw20(contract_addr@),
        CosmosAction::BankSend { denom, .. } => AssetId::Native(denom@),
    }
}

/// The account a transfer pays.
pub open spec fn paid_to(a: CosmosAction) -> Seq<char> {
    match a {
        CosmosAction::Cw20TransferFrom { recipient, .. } => recipient@,
        CosmosAction::Cw20Transfer { recipient, .. } => recipient@,
        CosmosAction::BankSend { to_address, .. } => to_address@,
    }
}

/// The amount a transfer moves.
pub open spec fn moved_amount(a: CosmosAction) -> u128 {
    match a {
        CosmosAction::Cw20TransferFrom { amount, .. } => amount,
        CosmosAction::Cw20Transfer { amount, .. } => amount,
        CosmosAction::BankSend { amount, .. } => amount,
    }
}

/// The account a transfer draws from under an allowance; `None` when the
/// contract pays out of its own holdings.
pub open spec fn drawn_from(a: CosmosAction) -> Option<Seq<char>> {
    match a {
        CosmosAction::Cw20TransferFrom { owner, .. } => Some(owner@),
        _ => None,
    }
}

/// One of the pair's two assets.
pub open spec fn traded_by(pair: PairInfo, t: AssetId) -> bool {
    t == pair.assets@[0]@ || t == pair.assets@[1]@
}

/// A swap is accepted only between the pair's two different assets; offering
/// or asking for an asset the pair does not trade is refused as
/// `PairNotFound`; an accepted swap pays out at least `min_amount_out`, and
/// a native payment of it came with at least `amount_in` of `unibi`. The
/// request checks abort only on a native payment, between the pair's two
/// different assets, that comes with no funds.
pub proof fn law_swap_accepts_only_pair_assets(
    pair: PairInfo,
    fees: Fees,
    funds: Seq<Coin>,
    from_token: TokenInfo,
    to_token: TokenInfo,
    amount_in: u128,
    min_amount_out: u128,
    reserve_in: u128,
    reserve_out: u128,
)
    ensures
        swap_request_error(pair, funds, from_token, to_token, amount_in) is None ==> {
            &&& from_token@ != to_token@
            &&& traded_by(pair, from_token@)
            &&& traded_by(pair, to_token@)
            &&& from_token@ is Native ==> funds[0].amount >= amount_in && funds[0].denom@
                == "unibi"@
        },
        from_token@ != to_token@ && (!traded_by(pair, from_token@) || !traded_by(pair, to_token@))
            ==> swap_request_error(pair, funds, from_token, to_token, amount_in) == Some(
            PairError::PairNotFound,
        ),
        from_token@ == to_token@ ==> swap_request_error(pair, funds, from_token, to_token, amount_in)
            == Some(PairError::SameToken),
        swap_error(
            pair,
            fees,
            funds,
            from_token,
            to_token,
            amount_in,
            min_amount_out,
            reserve_in,
            reserve_out,
        ) is None ==> {
            &&& swap_request_error(pair, funds, from_token, to_token, amount_in) is None
            &&& swap_amount_for(reserve_in, reserve_out, amount_in, fees) >= min_amount_out
        },
        swap_request_error(pair, funds, from_token, to_token, amount_in) matches Some(e) ==> swap_error(
            pair,
            fees,
            funds,
            from_token,
            to_token,
            amount_in,
            min_amount_out,
            reserve_in,
            reserve_out,
        ) == Some(e),
        ({
            let funds_ok = from_token@ is Native ==> funds[0].amount >= amount_in && funds[0].denom@
                == "unibi"@;
            from_token@ != to_token@ && traded_by(pair, from_token@) && traded_by(pair, to_token@)
                && funds_ok ==> swap_request_error(pair, funds, from_token, to_token, amount_in)
                is None
        }),
        from_token@ != to_token@ && traded_by(pair, from_token@) && traded_by(pair, to_token@)
            && from_token@ is Native && funds[0].amount < amount_in ==> swap_request_error(
            pair,
            funds,
            from_token,
            to_token,
            amount_in,
        ) == Some(PairError::InsufficientFunds),
        from_token@ != to_token@ && traded_by(pair, from_token@) && traded_by(pair, to_token@)
            && from_token@ is Native && funds[0].amount >= amount_in && funds[0].denom@ != "unibi"@
            ==> swap_request_error(pair, funds, from_token, to_token, amount_in) == Some(
            PairError::InvalidDenomination,
        ),
        swap_request_error(pair, funds, from_token, to_token, amount_in) is None ==> (swap_error(
            pair,
            fees,
            funds,
            from_token,
            to_token,
            amount_in,
            min_amount_out,
            reserve_in,
            reserve_out,
        ) is None <==> swap_amount_for(reserve_in, reserve_out, amount_in, fees) >= min_amount_out),
        swap_request_error(pair, funds, from_token, to_token, amount_in) is None
            && swap_amount_for(reserve_in, reserve_out, amount_in, fees) < min_amount_out
            ==> swap_error(
            pair,
            fees,
            funds,
            from_token,
            to_token,
            amount_in,
            min_amount_out,
            reserve_in,
            reserve_out,
        ) == Some(PairError::InsufficientAmountOut),
        swap_request_aborts(pair, funds, from_token, to_token) <==> {
            &&& from_token@ != to_token@
            &&& traded_by(pair, from_token@)
            &&& traded_by(pair, to_token@)
            &&& from_token@ is Native
            &&& funds.len() == 0
        },
{
}

/// The swap amount is the constant-product amount, rounded down: with
/// `net` what is left of `amount_in` after both fees (each rounded down),
/// `out * (reserve_in + net) <= reserve_out * net < (out + 1) * (reserve_in + net)`.
pub proof fn law_swap_amount_is_constant_product_floor(
    reserve_in: u128,
    reserve_out: u128,
    amount_in: u128,
    fees: Fees,
)
    requires
        swap_defined(
            reserve_in,
            reserve_out,
            amount_in,
            fees.protocol_fee_percent,
            fees.lp_fee_percent,
        ),
    ensures
        ({
            let protocol_fee = amount_in * fees.protocol_fee_percent / 10000;
            let lp_fee = amount_in * fees.lp_fee_percent / 10000;
            let net = amount_in - protocol_fee - lp_fee;
            let out = swap_amount_for(reserve_in, reserve_out, amount_in, fees);
            &&& protocol_fee * 10000 <= amount_in * fees.protocol_fee_percent < (protocol_fee + 1)
                * 10000
            &&& lp_fee * 10000 <= amount_in * fees.lp_fee_percent < (lp_fee + 1) * 10000
            &&& 0 <= net
            &&& out * (reserve_in + net) <= reserve_out * net
            &&& reserve_out * net < (out + 1) * (reserve_in + net)
        }),
{
    let p = fees.protocol_fee_percent as int;
    let l = fees.lp_fee_percent as int;
    let a = amount_in as int;
    lemma_floor_div(a * p, 10000);
    lemma_floor_div(a * l, 10000);
    let net = a - a * p / 10000 - a * l / 10000;
    assert(net == crate::math::swap_net_input(a, p, l));
    assert(0 <= reserve_out * net) by (nonlinear_arith)
        requires
            0 <= net,
            0 <= reserve_out,
    ;
    lemma_floor_div(reserve_out * net, reserve_in + net);
}

/// `q = n / d` rounded down is the quotient with `q * d <= n < (q + 1) * d`.
proof fn lemma_floor_div(n: int, d: int)
    requires
        0 <= n,
        0 < d,
    ensures
        (n / d) * d <= n < (n / d + 1) * d,
{
    let q = n / d;
    assert(q * d <= n < (q + 1) * d) by (nonlinear_arith)
        requires
            q == n / d,
            0 < d,
    ;
}

/// A share `value * numerator / denominator` is rounded down: with `q` the
/// share, `q * denominator <= value * numerator < (q + 1) * denominator`.
pub proof fn law_share_is_floor(value: u128, numerator: u128, denominator: u128)
    requires
        denominator > 0,
    ensures
        ratio(value as int, numerator as int, denominator as int) * denominator <= value
            * numerator,
        value * numerator < (ratio(value as int, numerator as int, denominator as int) + 1)
            * denominator,
{
    assert(0 <= value * numerator) by (nonlinear_arith);
    lemma_floor_div(value * numerator, denominator as int);
}

/// The liquidity minted for a deposit is the smaller of the two
/// candidates: the two deposited amounts for the first deposit, otherwise
/// the two proportional shares `amount_i * total_supply / reserve_i` of the
/// supply. It is at most each candidate and equal to one of them, so a
/// deposit whose two shares agree mints exactly that share.
pub proof fn law_deposit_mints_smaller_share(
    assets: Seq<Token>,
    total_supply: u128,
    reserve0: u128,
    reserve1: u128,
)
    ensures
        ({
            let minted = deposit_liquidity(assets, total_supply, reserve0, reserve1);
            let c0 = if total_supply == 0 {
                assets[0].amount as int
            } else {
                assets[0].amount * total_supply / (reserve0 as int)
            };
            let c1 = if total_supply == 0 {
                assets[1].amount as int
            } else {
                assets[1].amount * total_supply / (reserve1 as int)
            };
            &&& minted <= c0
            &&& minted <= c1
            &&& (minted == c0 || minted == c1)
        }),
        ({
            let minted = liquidity_for(
                assets[0].amount as int,
                assets[1].amount as int,
                total_supply as int,
                reserve0 as int,
                reserve1 as int,
            );
            minted == deposit_liquidity(assets, total_supply, reserve0, reserve1)
        }),
{
}

/// The deposit check accepts exactly the pair's two assets, in either
/// order: each offered asset is one of the pair's, and together they cover
/// both of the pair's assets.
pub proof fn law_deposit_accepts_exactly_the_pair(pair: PairInfo, a: AssetId, b: AssetId)
    ensures
        is_pair_of(pair, a, b) ==> {
            &&& traded_by(pair, a)
            &&& traded_by(pair, b)
            &&& (a == pair.assets@[0]@ || b == pair.assets@[0]@)
            &&& (a == pair.assets@[1]@ || b == pair.assets@[1]@)
        },
        a == pair.assets@[0]@ && b == pair.assets@[1]@ ==> is_pair_of(pair, a, b),
        a == pair.assets@[1]@ && b == pair.assets@[0]@ ==> is_pair_of(pair, a, b),
        !traded_by(pair, a) || !traded_by(pair, b) ==> !is_pair_of(pair, a, b),
{
}

/// A payout moves the asset itself out of the contract's holdings: a
/// native asset by a bank send of its denomination, a CW20 asset by a call
/// of its contract, to `recipient`, of `amount`.
pub proof fn law_payout_moves_the_asset(asset: TokenInfo, recipient: String, amount: u128)
    ensures
        moved_asset(payout_message(asset, recipient, amount)) == asset@,
        paid_to(payout_message(asset, recipient, amount)) == recipient@,
        moved_amount(payout_message(asset, recipient, amount)) == amount,
        drawn_from(payout_message(asset, recipient, amount)) is None,
        asset@ is Native <==> payout_message(asset, recipient, amount) is BankSend,
{
}

/// Pulling in a CW20 asset is one transfer of that asset from `owner` to
/// `contract` of `amount` under an allowance; a native asset needs none.
pub proof fn law_pull_moves_the_asset_in(
    asset: TokenInfo,
    owner: String,
    contract: String,
    amount: u128,
)
    ensures
        asset@ is Native ==> pull_messages(asset, owner, contract, amount).len() == 0,
        asset@ is Cw20 ==> {
            let m = pull_messages(asset, owner, contract, amount);
            &&& m.len() == 1
            &&& m[0] is Cw20TransferFrom
            &&& moved_asset(m[0]) == asset@
            &&& drawn_from(m[0]) == Some(owner@)
            &&& paid_to(m[0]) == contract@
            &&& moved_amount(m[0]) == amount
        },
{
}

/// The protocol fee moves `amount` of the offered asset: for a CW20 asset,
/// from the sender to `recipient`; for a native asset, a bank send to the
/// sender.
pub proof fn law_fee_moves_the_offered_asset(
    sender: String,
    recipient: String,
    asset: TokenInfo,
    amount: u128,
)
    ensures
        moved_asset(fee_message(sender, recipient, asset, amount)) == asset@,
        moved_amount(fee_message(sender, recipient, asset, amount)) == amount,
        asset@ is Cw20 ==> drawn_from(fee_message(sender, recipient, asset, amount)) == Some(
            sender@,
        ) && paid_to(fee_message(sender, recipient, asset, amount)) == recipient@,
        asset@ is Native ==> fee_message(sender, recipient, asset, amount) is BankSend && paid_to(
            fee_message(sender, recipient, asset, amount),
        ) == sender@,
{
}

/// The transfers of an accepted swap, in order: for a CW20 payment, first
/// the pull of `amount_in` of the offered asset from the sender into the
/// pair contract; then, when the protocol fee `amount_in * percent / 10000`
/// is not zero, one transfer of that fee in the offered asset; last, the
/// payout of `amount_out` of the asked asset to the sender. Nothing else.
/// (Every accepted swap has a fee product that fits, as `swap_defined` requires.)
pub proof fn law_swap_transfers(
    fees: Fees,
    sender: String,
    contract: String,
    from_token: TokenInfo,
    to_token: TokenInfo,
    amount_in: u128,
    amount_out: u128,
)
    requires
        amount_in * fees.protocol_fee_percent <= u128::MAX,
    ensures
        ({
            let m = swap_messages(fees, sender, contract, from_token, to_token, amount_in, amount_out);
            let fee = amount_in * fees.protocol_fee_percent / 10000;
            let first_fee = if from_token@ is Cw20 {
                1int
            } else {
                0int
            };
            let last = m.len() - 1;
            &&& m.len() == first_fee + (if fee != 0 {
                1int
            } else {
                0int
            }) + 1
            &&& from_token@ is Cw20 ==> {
                &&& m[0] is Cw20TransferFrom
                &&& moved_asset(m[0]) == from_token@
                &&& drawn_from(m[0]) == Some(sender@)
                &&& paid_to(m[0]) == contract@
                &&& moved_amount(m[0]) == amount_in
            }
            &&& fee != 0 ==> {
                &&& moved_asset(m[first_fee]) == from_token@
                &&& moved_amount(m[first_fee]) == fee
                &&& from_token@ is Cw20 ==> drawn_from(m[first_fee]) == Some(sender@) && paid_to(
                    m[first_fee],
                ) == fees.protocol_fee_recipient@
            }
            &&& moved_asset(m[last]) == to_token@
            &&& paid_to(m[last]) == sender@
            &&& moved_amount(m[last]) == amount_out
            &&& drawn_from(m[last]) is None
        }),
{
    let fee = fee_amount(amount_in as int, fees.protocol_fee_percent as int);
    assert(0 <= fee) by (nonlinear_arith)
        requires
            fee == amount_in * fees.protocol_fee_percent / 10000,
    ;
    assert(fee <= u128::MAX) by (nonlinear_arith)
        requires
            fee == amount_in * fees.protocol_fee_percent / 10000,
            amount_in * fees.protocol_fee_percent <= u128::MAX,
            0 <= amount_in * fees.protocol_fee_percent,
    ;
}

/// The swap arithmetic is defined exactly when every `u128` step fits:
/// both fee products, both subtractions of the (rounded-down) fees, the
/// product `reserve_out * net`, and a nonzero sum `reserve_in + net` that fits.
pub proof fn law_swap_defined_when_steps_fit(
    reserve_in: u128,
    reserve_out: u128,
    amount_in: u128,
    protocol_fee_percent: u128,
    lp_fee_percent: u128,
)
    ensures
        swap_defined(reserve_in, reserve_out, amount_in, protocol_fee_percent, lp_fee_percent)
            <==> {
            let net = amount_in - amount_in * protocol_fee_percent / 10000 - amount_in
                * lp_fee_percent / 10000;
            &&& amount_in * protocol_fee_percent <= u128::MAX
            &&& amount_in * lp_fee_percent <= u128::MAX
            &&& net >= 0
            &&& reserve_out * net <= u128::MAX
            &&& 0 < reserve_in + net <= u128::MAX
        },
{
}

/// A share is defined exactly when the denominator is not zero and the
/// rounded-down quotient fits in `u128`.
pub proof fn law_share_defined_when_quotient_fits(value: u128, numerator: u128, denominator: u128)
    ensures
        crate::math::ratio_defined(value as int, numerator as int, denominator as int) <==> (
        denominator != 0 && value * numerator / (denominator as int) <= u128::MAX),
{
}

} // verus!
