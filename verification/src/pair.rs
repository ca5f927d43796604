//! The pair contract's rules: which requests it accepts, what it pays out,
//! and which token transfers it asks the chain to carry out.
//!
//! The contract's balances in each asset, its liquidity-token supply and its
//! fee settings are read from the chain by the caller and handed in as
//! plain values; the functions here decide on them.

use vstd::prelude::*;
use crate::math::{
    calculate_swap_amount, checked_liquidity_for, checked_swap_amount, fee_amount,
    get_protocol_fees, liquidity_defined, liquidity_for, liquidity_to_mint, ratio, swap_amount,
    swap_defined, withdrawal_amounts, withdrawal_defined,
};
use crate::token::{AssetId, Token, TokenInfo};

verus! {

/// The only native denomination a swap accepts as payment.
pub open spec fn accepted_denom() -> Seq<char> {
    "unibi"@
}

/// Liquidity-provider fee set at instantiation, in basis points.
pub const LP_FEE_PERCENT: u128 = 30;

/// Protocol fee set at instantiation, in basis points.
pub const PROTOCOL_FEE_PERCENT: u128 = 10;

/// The two assets a pair trades, and the decimals of its liquidity token.
#[derive(Debug, Clone)]
pub struct PairInfo {
    pub assets: [TokenInfo; 2],
    pub lp_token_decimal: u8,
}

/// The pair's fee settings; percentages are in basis points.
#[derive(Debug, Clone)]
pub struct Fees {
    pub protocol_fee_recipient: String,
    pub protocol_fee_percent: u128,
    pub lp_fee_percent: u128,
}

/// Native funds sent along with a request.
#[derive(Debug, Clone)]
pub struct Coin {
    pub denom: String,
    pub amount: u128,
}

/// A token transfer the contract asks the chain to carry out.
#[derive(Debug, Clone)]
pub enum CosmosAction {
    /// Move `amount` of the CW20 token at `contract_addr` from `owner` to `recipient`
    /// under an allowance.
    Cw20TransferFrom { contract_addr: String, owner: String, recipient: String, amount: u128 },
    /// Move `amount` of the CW20 token at `contract_addr` from the contract to `recipient`.
    Cw20Transfer { contract_addr: String, recipient: String, amount: u128 },
    /// Send `amount` of the native `denom` from the contract to `to_address`.
    BankSend { to_address: String, denom: String, amount: u128 },
}

/// Two transfers are the same: same kind, same addresses and denomination, same amount.
pub open spec fn same_action(a: CosmosAction, b: CosmosAction) -> bool {
    match (a, b) {
        (
            CosmosAction::Cw20TransferFrom { contract_addr: c1, owner: o1, recipient: r1, amount: m1 },
            CosmosAction::Cw20TransferFrom { contract_addr: c2, owner: o2, recipient: r2, amount: m2 },
        ) => c1@ == c2@ && o1@ == o2@ && r1@ == r2@ && m1 == m2,
        (
            CosmosAction::Cw20Transfer { contract_addr: c1, recipient: r1, amount: m1 },
            CosmosAction::Cw20Transfer { contract_addr: c2, recipient: r2, amount: m2 },
        ) => c1@ == c2@ && r1@ == r2@ && m1 == m2,
        (
            CosmosAction::BankSend { to_address: t1, denom: d1, amount: m1 },
            CosmosAction::BankSend { to_address: t2, denom: d2, amount: m2 },
        ) => t1@ == t2@ && d1@ == d2@ && m1 == m2,
        _ => false,
    }
}

impl PartialEq for CosmosAction {
    fn eq(&self, other: &Self) -> (r: bool) {
        match (self, other) {
            (
                CosmosAction::Cw20TransferFrom { contract_addr: c1, owner: o1, recipient: r1, amount: m1 },
                CosmosAction::Cw20TransferFrom { contract_addr: c2, owner: o2, recipient: r2, amount: m2 },
            ) => *c1 == *c2 && *o1 == *o2 && *r1 == *r2 && *m1 == *m2,
            (
                CosmosAction::Cw20Transfer { contract_addr: c1, recipient: r1, amount: m1 },
                CosmosAction::Cw20Transfer { contract_addr: c2, recipient: r2, amount: m2 },
            ) => *c1 == *c2 && *r1 == *r2 && *m1 == *m2,
            (
                CosmosAction::BankSend { to_address: t1, denom: d1, amount: m1 },
                CosmosAction::BankSend { to_address: t2, denom: d2, amount: m2 },
            ) => *t1 == *t2 && *d1 == *d2 && *m1 == *m2,
            _ => false,
        }
    }
}

impl vstd::std_specs::cmp::PartialEqSpecImpl for CosmosAction {
    open spec fn obeys_eq_spec() -> bool {
        true
    }

    open spec fn eq_spec(&self, other: &CosmosAction) -> bool {
        same_action(*self, *other)
    }
}

/// Why the pair refuses a request.
#[derive(Debug, Clone, Copy, PartialEq, Eq, Structural)]
pub enum PairError {
    /// "Cannot swap same token"
    SameToken,
    /// "Pair does not exist"
    PairNotFound,
    /// "Insufficient funds sent"
    InsufficientFunds,
    /// "Invalid denomination"
    InvalidDenomination,
    /// "Insufficient amount out"
    InsufficientAmountOut,
    /// "Insufficient liquidity minted {minted}"
    InsufficientLiquidity { minted: u128 },
}

/// Why the liquidity token refuses to mint.
#[derive(Debug, Clone, Copy, PartialEq, Eq, Structural)]
pub enum MintError {
    /// The new total supply would exceed the minting cap.
    CannotExceedCap,
}

/// The outcome of an accepted swap.
#[derive(Debug)]
pub struct Swapped {
    pub amount_out: u128,
    pub messages: Vec<CosmosAction>,
}

/// The outcome of an accepted deposit: the liquidity tokens to mint, the
/// account they are minted to, and the transfers that pull the deposit in.
#[derive(Debug)]
pub struct LiquidityAdded {
    pub liquidity_minted: u128,
    pub mint_recipient: String,
    pub messages: Vec<CosmosAction>,
}

/// The outcome of a withdrawal: the amounts returned of each pair asset and
/// the transfers that pay them out.
#[derive(Debug)]
pub struct LiquidityWithdrawn {
    pub assets_returned: [u128; 2],
    pub messages: Vec<CosmosAction>,
}

/// The pair trades asset `t`.
pub open spec fn holds(pair: PairInfo, t: AssetId) -> bool {
    pair.assets@[0]@ == t || pair.assets@[1]@ == t
}

/// `a` and `b` are the pair's two assets, in either order.
pub open spec fn is_pair_of(pair: PairInfo, a: AssetId, b: AssetId) -> bool {
    (a == pair.assets@[0]@ && b == pair.assets@[1]@) || (a == pair.assets@[1]@ && b
        == pair.assets@[0]@)
}

/// The transfer that pulls `amount` of a CW20 asset from `owner` into `contract`;
/// native assets arrive with the request and need none.
pub open spec fn pull_messages(
    asset: TokenInfo,
    owner: String,
    contract: String,
    amount: u128,
) -> Seq<CosmosAction> {
    match asset {
        TokenInfo::CW20Token { contract_addr } => seq![
            CosmosAction::Cw20TransferFrom {
                contract_addr: contract_addr,
                owner: owner,
                recipient: contract,
                amount: amount,
            },
        ],
        TokenInfo::NativeToken { .. } => seq![],
    }
}

/// The transfer that pays `amount` of `asset` out of the contract to `recipient`.
pub open spec fn payout_message(asset: TokenInfo, recipient: String, amount: u128) -> CosmosAction {
    match asset {
        TokenInfo::CW20Token { contract_addr } => CosmosAction::Cw20Transfer {
            contract_addr: contract_addr,
            recipient: recipient,
            amount: amount,
        },
        TokenInfo::NativeToken { denom } => CosmosAction::BankSend {
            to_address: recipient,
            denom: denom,
            amount: amount,
        },
    }
}

/// The transfer that collects the protocol fee: for a CW20 asset, from the
/// sender to the fee recipient; for a native asset, a bank send addressed to
/// the sender.
pub open spec fn fee_message(
    sender: String,
    recipient: String,
    asset: TokenInfo,
    amount: u128,
) -> CosmosAction {
    match asset {
        TokenInfo::CW20Token { contract_addr } => CosmosAction::Cw20TransferFrom {
            contract_addr: contract_addr,
            owner: sender,
            recipient: recipient,
            amount: amount,
        },
        TokenInfo::NativeToken { denom } => CosmosAction::BankSend {
            to_address: sender,
            denom: denom,
            amount: amount,
        },
    }
}

/// The swap amount for the given reserves and fees.
pub open spec fn swap_amount_for(
    reserve_in: u128,
    reserve_out: u128,
    amount_in: u128,
    fees: Fees,
) -> int {
    swap_amount(
        reserve_in as int,
        reserve_out as int,
        amount_in as int,
        fees.protocol_fee_percent as int,
        fees.lp_fee_percent as int,
    )
}

/// The checks on a swap request that come before any amount is computed.
pub open spec fn swap_request_error(
    pair: PairInfo,
    funds: Seq<Coin>,
    from_token: TokenInfo,
    to_token: TokenInfo,
    amount_in: u128,
) -> Option<PairError> {
    if from_token@ == to_token@ {
        Some(PairError::SameToken)
    } else if !holds(pair, from_token@) || !holds(pair, to_token@) {
        Some(PairError::PairNotFound)
    } else if from_token@ is Native && funds[0].amount < amount_in {
        Some(PairError::InsufficientFunds)
    } else if from_token@ is Native && funds[0].denom@ != accepted_denom() {
        Some(PairError::InvalidDenomination)
    } else {
        None
    }
}

/// The error a swap ends in, if any.
pub open spec fn swap_error(
    pair: PairInfo,
    fees: Fees,
    funds: Seq<Coin>,
    from_token: TokenInfo,
    to_token: TokenInfo,
    amount_in: u128,
    min_amount_out: u128,
    reserve_in: u128,
    reserve_out: u128,
) -> Option<PairError> {
    match swap_request_error(pair, funds, from_token, to_token, amount_in) {
        Some(e) => Some(e),
        None => if swap_amount_for(reserve_in, reserve_out, amount_in, fees) < min_amount_out {
            Some(PairError::InsufficientAmountOut)
        } else {
            None
        },
    }
}

/// The inputs on which the checks of a swap request abort: a native
/// payment of a valid request with no funds attached.
pub open spec fn swap_request_aborts(
    pair: PairInfo,
    funds: Seq<Coin>,
    from_token: TokenInfo,
    to_token: TokenInfo,
) -> bool {
    &&& from_token@ != to_token@
    &&& holds(pair, from_token@)
    &&& holds(pair, to_token@)
    &&& from_token@ is Native
    &&& funds.len() == 0
}

/// The inputs on which a swap aborts instead of answering: its request
/// checks abort, or they pass and the swap arithmetic overflows or divides
/// by zero.
pub open spec fn swap_aborts(
    pair: PairInfo,
    fees: Fees,
    funds: Seq<Coin>,
    from_token: TokenInfo,
    to_token: TokenInfo,
    amount_in: u128,
    reserve_in: u128,
    reserve_out: u128,
) -> bool {
    ||| swap_request_aborts(pair, funds, from_token, to_token)
    ||| swap_request_error(pair, funds, from_token, to_token, amount_in) is None && !swap_defined(
        reserve_in,
        reserve_out,
        amount_in,
        fees.protocol_fee_percent,
        fees.lp_fee_percent,
    )
}

/// The transfers of an accepted swap: the pull of a CW20 payment, the
/// protocol fee when it is not zero, and the payout to the sender.
pub open spec fn swap_messages(
    fees: Fees,
    sender: String,
    contract: String,
    from_token: TokenInfo,
    to_token: TokenInfo,
    amount_in: u128,
    amount_out: u128,
) -> Seq<CosmosAction> {
    let fee = fee_amount(amount_in as int, fees.protocol_fee_percent as int);
    pull_messages(from_token, sender, contract, amount_in) + (if fee != 0 {
        seq![fee_message(sender, fees.protocol_fee_recipient, from_token, fee as u128)]
    } else {
        seq![]
    }) + seq![payout_message(to_token, sender, amount_out)]
}

/// The liquidity a deposit of `assets` mints, with `reserve_i` the contract's
/// balance of `assets[i]`.
pub open spec fn deposit_liquidity(
    assets: Seq<Token>,
    total_supply: u128,
    reserve0: u128,
    reserve1: u128,
) -> int {
    liquidity_for(
        assets[0].amount as int,
        assets[1].amount as int,
        total_supply as int,
        reserve0 as int,
        reserve1 as int,
    )
}

/// The inputs on which a deposit, or its estimate, aborts: a share
/// computation divides by zero or overflows.
pub open spec fn deposit_aborts(
    pair: PairInfo,
    assets: Seq<Token>,
    total_supply: u128,
    reserve0: u128,
    reserve1: u128,
) -> bool {
    is_pair_of(pair, assets[0].info@, assets[1].info@) && !liquidity_defined(
        assets[0].amount,
        assets[1].amount,
        total_supply,
        reserve0,
        reserve1,
    )
}

/// The pair's state at instantiation: its two assets, the decimals of its
/// liquidity token, and fees of 30 basis points to liquidity providers and
/// 10 basis points to `treasury`.
pub fn instantiate(token_info: [TokenInfo; 2], lp_token_decimal: u8, treasury: String) -> (r: (
    PairInfo,
    Fees,
))
    ensures
        r.0.assets == token_info,
        r.0.lp_token_decimal == lp_token_decimal,
        r.1.protocol_fee_recipient == treasury,
        r.1.lp_fee_percent == 30,
        r.1.protocol_fee_percent == 10,
{
    let pair_info = PairInfo { assets: token_info, lp_token_decimal };
    let fees = Fees {
        lp_fee_percent: LP_FEE_PERCENT,
        protocol_fee_percent: PROTOCOL_FEE_PERCENT,
        protocol_fee_recipient: treasury,
    };
    (pair_info, fees)
}

/// A CW20 transfer of `token_amount` from `owner` to `recipient` under an allowance.
pub fn get_cw20_transfer_msg(
    owner: &String,
    recipient: &String,
    token_addr: &String,
    token_amount: u128,
) -> (r: CosmosAction)
    ensures
        r == (CosmosAction::Cw20TransferFrom {
            contract_addr: *token_addr,
            owner: *owner,
            recipient: *recipient,
            amount: token_amount,
        }),
{
    CosmosAction::Cw20TransferFrom {
        contract_addr: token_addr.clone(),
        owner: owner.clone(),
        recipient: recipient.clone(),
        amount: token_amount,
    }
}

/// A bank send of `native_amount` of `denom` to `recipient`.
pub fn get_bank_transfer_msg(recipient: &String, denom: &String, native_amount: u128) -> (r:
    CosmosAction)
    ensures
        r == (CosmosAction::BankSend {
            to_address: *recipient,
            denom: *denom,
            amount: native_amount,
        }),
{
    CosmosAction::BankSend {
        to_address: recipient.clone(),
        denom: denom.clone(),
        amount: native_amount,
    }
}

/// The transfer that collects `amount` of `from_token` as protocol fee.
pub fn get_fee_transfer_msg(
    sender: &String,
    recipient: &String,
    from_token: &TokenInfo,
    amount: u128,
) -> (r: CosmosAction)
    ensures
        r == fee_message(*sender, *recipient, *from_token, amount),
{
    match from_token {
        TokenInfo::CW20Token { contract_addr } => get_cw20_transfer_msg(
            sender,
            recipient,
            contract_addr,
            amount,
        ),
        TokenInfo::NativeToken { denom } => get_bank_transfer_msg(sender, denom, amount),
    }
}

fn pull_message_into(
    messages: &mut Vec<CosmosAction>,
    asset: &TokenInfo,
    owner: &String,
    contract: &String,
    amount: u128,
)
    ensures
        final(messages)@ == old(messages)@ + pull_messages(*asset, *owner, *contract, amount),
{
    match asset {
        TokenInfo::CW20Token { contract_addr } => {
            messages.push(get_cw20_transfer_msg(owner, contract, contract_addr, amount));
        },
        TokenInfo::NativeToken { .. } => {},
    }
}

fn payout(asset: &TokenInfo, recipient: &String, amount: u128) -> (r: CosmosAction)
    ensures
        r == payout_message(*asset, *recipient, amount),
{
    match asset {
        TokenInfo::CW20Token { contract_addr } => CosmosAction::Cw20Transfer {
            contract_addr: contract_addr.clone(),
            recipient: recipient.clone(),
            amount,
        },
        TokenInfo::NativeToken { denom } => get_bank_transfer_msg(recipient, denom, amount),
    }
}

impl PairInfo {
    /// Whether the pair trades `t`.
    pub fn trades(&self, t: &TokenInfo) -> (b: bool)
        ensures
            b == holds(*self, t@),
    {
        *t == self.assets[0] || *t == self.assets[1]
    }

    /// Whether `a` and `b` are the pair's two assets, in either order.
    pub fn is_pair_of(&self, a: &TokenInfo, b: &TokenInfo) -> (r: bool)
        ensures
            r == is_pair_of(*self, a@, b@),
    {
        (*a == self.assets[0] && *b == self.assets[1]) || (*a == self.assets[1] && *b
            == self.assets[0])
    }
}

/// Whether the checks of a swap request abort (see `swap_request_aborts`).
pub fn swap_request_aborts_on(
    pair: &PairInfo,
    funds: &Vec<Coin>,
    from_token: &TokenInfo,
    to_token: &TokenInfo,
) -> (b: bool)
    ensures
        b == swap_request_aborts(*pair, funds@, *from_token, *to_token),
{
    *from_token != *to_token && pair.trades(from_token) && pair.trades(to_token)
        && from_token.is_native() && funds.len() == 0
}

/// The checks on a swap request before any amount is computed.
pub fn check_swap_request(
    pair: &PairInfo,
    funds: &Vec<Coin>,
    from_token: &TokenInfo,
    to_token: &TokenInfo,
    amount_in: u128,
) -> (r: Result<(), PairError>)
    requires
        !swap_request_aborts(*pair, funds@, *from_token, *to_token),
    ensures
        r is Ok <==> swap_request_error(*pair, funds@, *from_token, *to_token, amount_in) is None,
        r matches Err(e) ==> swap_request_error(*pair, funds@, *from_token, *to_token, amount_in)
            == Some(e),
{
    if *from_token == *to_token {
        return Err(PairError::SameToken);
    }
    if !pair.trades(from_token) || !pair.trades(to_token) {
        return Err(PairError::PairNotFound);
    }
    if from_token.is_native() {
        let sent = &funds[0];
        if sent.amount < amount_in {
            return Err(PairError::InsufficientFunds);
        }
        let accepted = String::from_str("unibi");
        proof {
            reveal_strlit("unibi");
        }
        if sent.denom != accepted {
            return Err(PairError::InvalidDenomination);
        }
    }
    Ok(())
}

/// Swaps `amount_in` of `from_token` for `to_token` on behalf of `sender`,
/// with `reserve_in`/`reserve_out` the contract's balances of the two assets.
/// Refuses a swap of an asset for itself, assets the pair does not trade, a
/// native payment short of `amount_in` or in another denomination than
/// `unibi`, and a payout below `min_amount_out`. An accepted swap pays out
/// the constant-product amount and asks for the transfers of `swap_messages`.
pub fn swap(
    pair: &PairInfo,
    fees: &Fees,
    sender: &String,
    contract: &String,
    funds: &Vec<Coin>,
    from_token: &TokenInfo,
    to_token: &TokenInfo,
    amount_in: u128,
    min_amount_out: u128,
    reserve_in: u128,
    reserve_out: u128,
) -> (r: Result<Swapped, PairError>)
    requires
        !swap_aborts(*pair, *fees, funds@, *from_token, *to_token, amount_in, reserve_in, reserve_out),
    ensures
        r is Err <==> swap_error(
            *pair,
            *fees,
            funds@,
            *from_token,
            *to_token,
            amount_in,
            min_amount_out,
            reserve_in,
            reserve_out,
        ) is Some,
        r matches Err(e) ==> swap_error(
            *pair,
            *fees,
            funds@,
            *from_token,
            *to_token,
            amount_in,
            min_amount_out,
            reserve_in,
            reserve_out,
        ) == Some(e),
        r matches Ok(s) ==> {
            &&& s.amount_out == swap_amount_for(reserve_in, reserve_out, amount_in, *fees)
            &&& s.messages@ == swap_messages(
                *fees,
                *sender,
                *contract,
                *from_token,
                *to_token,
                amount_in,
                s.amount_out,
            )
        },
{
    match check_swap_request(pair, funds, from_token, to_token, amount_in) {
        Err(e) => return Err(e),
        Ok(()) => {},
    }
    let mut messages: Vec<CosmosAction> = Vec::new();
    pull_message_into(&mut messages, from_token, sender, contract, amount_in);
    let amount_out = calculate_swap_amount(
        reserve_in,
        reserve_out,
        amount_in,
        fees.protocol_fee_percent,
        fees.lp_fee_percent,
    );
    let protocol_fee = get_protocol_fees(amount_in, fees.protocol_fee_percent);
    if protocol_fee != 0 {
        messages.push(
            get_fee_transfer_msg(sender, &fees.protocol_fee_recipient, from_token, protocol_fee),
        );
    }
    if amount_out < min_amount_out {
        return Err(PairError::InsufficientAmountOut);
    }
    messages.push(payout(to_token, sender, amount_out));
    assert(messages@ =~= swap_messages(
        *fees,
        *sender,
        *contract,
        *from_token,
        *to_token,
        amount_in,
        amount_out,
    ));
    Ok(Swapped { amount_out, messages })
}

/// The amount a swap of `amount_in` would pay out, with `reserve_in`/`reserve_out`
/// the contract's balances of the offered and the asked asset.
pub fn query_amount_out(reserve_in: u128, reserve_out: u128, amount_in: u128, fees: &Fees) -> (r:
    u128)
    requires
        swap_defined(reserve_in, reserve_out, amount_in, fees.protocol_fee_percent, fees.lp_fee_percent),
    ensures
        r == swap_amount_for(reserve_in, reserve_out, amount_in, *fees),
{
    calculate_swap_amount(
        reserve_in,
        reserve_out,
        amount_in,
        fees.protocol_fee_percent,
        fees.lp_fee_percent,
    )
}

/// The liquidity tokens a deposit of `assets` would mint, with `reserve_i`
/// the contract's balance of `assets[i]`. Refuses assets that are not the
/// pair's two assets.
pub fn query_lp_token_amount(
    pair: &PairInfo,
    assets: &[Token; 2],
    total_supply: u128,
    reserve0: u128,
    reserve1: u128,
) -> (r: Result<u128, PairError>)
    requires
        !deposit_aborts(*pair, assets@, total_supply, reserve0, reserve1),
    ensures
        r is Err <==> !is_pair_of(*pair, assets@[0].info@, assets@[1].info@),
        r matches Err(e) ==> e == PairError::PairNotFound,
        r matches Ok(v) ==> v == deposit_liquidity(assets@, total_supply, reserve0, reserve1),
{
    if !pair.is_pair_of(&assets[0].info, &assets[1].info) {
        return Err(PairError::PairNotFound);
    }
    Ok(liquidity_to_mint(assets[0].amount, assets[1].amount, total_supply, reserve0, reserve1))
}

/// Accepts a deposit of the pair's two assets from `sender`, with
/// `reserve_i` the contract's balance of `assets[i]` before the deposit.
/// Refuses assets that are not the pair's two assets, and a deposit that
/// would mint fewer than `min_liquidity` liquidity tokens. An accepted
/// deposit pulls in each CW20 asset and mints `deposit_liquidity` tokens
/// to `sender`.
pub fn add_liquidity(
    pair: &PairInfo,
    sender: &String,
    contract: &String,
    assets: &[Token; 2],
    min_liquidity: u128,
    total_supply: u128,
    reserve0: u128,
    reserve1: u128,
) -> (r: Result<LiquidityAdded, PairError>)
    requires
        !deposit_aborts(*pair, assets@, total_supply, reserve0, reserve1),
    ensures
        r matches Err(e) ==> e == PairError::PairNotFound || e == (PairError::InsufficientLiquidity {
            minted: deposit_liquidity(assets@, total_supply, reserve0, reserve1) as u128,
        }),
        r matches Err(PairError::PairNotFound) <==> !is_pair_of(
            *pair,
            assets@[0].info@,
            assets@[1].info@,
        ),
        r matches Err(PairError::InsufficientLiquidity { .. }) <==> is_pair_of(
            *pair,
            assets@[0].info@,
            assets@[1].info@,
        ) && deposit_liquidity(assets@, total_supply, reserve0, reserve1) < min_liquidity,
        r matches Ok(a) ==> {
            &&& a.liquidity_minted == deposit_liquidity(assets@, total_supply, reserve0, reserve1)
            &&& a.mint_recipient == *sender
            &&& a.messages@ == pull_messages(assets@[0].info, *sender, *contract, assets@[0].amount)
                + pull_messages(assets@[1].info, *sender, *contract, assets@[1].amount)
        },
{
    if !pair.is_pair_of(&assets[0].info, &assets[1].info) {
        return Err(PairError::PairNotFound);
    }
    let mut messages: Vec<CosmosAction> = Vec::new();
    pull_message_into(&mut messages, &assets[0].info, sender, contract, assets[0].amount);
    pull_message_into(&mut messages, &assets[1].info, sender, contract, assets[1].amount);
    let liquidity_minted = liquidity_to_mint(
        assets[0].amount,
        assets[1].amount,
        total_supply,
        reserve0,
        reserve1,
    );
    if liquidity_minted < min_liquidity {
        return Err(PairError::InsufficientLiquidity { minted: liquidity_minted });
    }
    Ok(LiquidityAdded { liquidity_minted, mint_recipient: sender.clone(), messages })
}

/// Returns to `sender` the share of both reserves that `lp_token.amount`
/// liquidity tokens of `total_supply` stand for, with `reserve_i` the
/// contract's balance of the pair's asset `i`: `amount * reserve_i / total_supply`
/// of each, paid out in pair order.
pub fn withdraw_liquidity(
    pair: &PairInfo,
    sender: &String,
    lp_token: &Token,
    total_supply: u128,
    reserve0: u128,
    reserve1: u128,
) -> (r: LiquidityWithdrawn)
    requires
        withdrawal_defined(lp_token.amount, reserve0, reserve1, total_supply),
    ensures
        r.assets_returned@[0] == ratio(lp_token.amount as int, reserve0 as int, total_supply as int),
        r.assets_returned@[1] == ratio(lp_token.amount as int, reserve1 as int, total_supply as int),
        r.messages@ == seq![
            payout_message(pair.assets@[0], *sender, r.assets_returned@[0]),
            payout_message(pair.assets@[1], *sender, r.assets_returned@[1]),
        ],
{
    let (out0, out1) = withdrawal_amounts(lp_token.amount, reserve0, reserve1, total_supply);
    let mut messages: Vec<CosmosAction> = Vec::new();
    messages.push(payout(&pair.assets[0], sender, out0));
    messages.push(payout(&pair.assets[1], sender, out1));
    let assets_returned = [out0, out1];
    assert(messages@ =~= seq![
        payout_message(pair.assets@[0], *sender, assets_returned@[0]),
        payout_message(pair.assets@[1], *sender, assets_returned@[1]),
    ]);
    LiquidityWithdrawn { assets_returned, messages }
}

/// A mint that was carried out: the token's new total supply and the
/// recipient's new balance. No other balance changes.
#[derive(Debug, Clone, Copy, PartialEq, Eq, Structural)]
pub struct Minted {
    pub total_supply: u128,
    pub recipient_balance: u128,
}

/// Minting `amount` on top of `total_supply` stays within the minting cap, if any.
pub open spec fn mint_within_cap(total_supply: u128, cap: Option<u128>, amount: u128) -> bool {
    match cap {
        Some(limit) => total_supply + amount <= limit,
        None => true,
    }
}

/// Whether minting `amount` on top of `total_supply` stays within the cap.
pub fn within_cap(total_supply: u128, cap: Option<u128>, amount: u128) -> (b: bool)
    requires
        total_supply + amount <= u128::MAX,
    ensures
        b == mint_within_cap(total_supply, cap, amount),
{
    match cap {
        Some(limit) => total_supply + amount <= limit,
        None => true,
    }
}

/// A balance after `amount` is credited to it; an account without a
/// balance holds nothing.
pub fn credit(balance: Option<u128>, amount: u128) -> (r: u128)
    requires
        balance.unwrap_or(0) + amount <= u128::MAX,
    ensures
        r == balance.unwrap_or(0) + amount,
{
    match balance {
        Some(b) => b + amount,
        None => amount,
    }
}

/// Mints `amount` liquidity tokens to a recipient whose balance is
/// `recipient_balance` (`None` for an account that holds none): the new
/// total supply and the recipient's new balance, refused when the new supply
/// would exceed the minting cap.
pub fn execute_mint(
    total_supply: u128,
    cap: Option<u128>,
    recipient_balance: Option<u128>,
    amount: u128,
) -> (r: Result<Minted, MintError>)
    requires
        total_supply + amount <= u128::MAX,
        mint_within_cap(total_supply, cap, amount) ==> recipient_balance.unwrap_or(0) + amount
            <= u128::MAX,
    ensures
        r is Err <==> !mint_within_cap(total_supply, cap, amount),
        r matches Err(e) ==> e == MintError::CannotExceedCap,
        r matches Ok(m) ==> m.total_supply == total_supply + amount
            && m.recipient_balance == recipient_balance.unwrap_or(0) + amount,
{
    if !within_cap(total_supply, cap, amount) {
        return Err(MintError::CannotExceedCap);
    }
    let new_supply = total_supply + amount;
    Ok(Minted { total_supply: new_supply, recipient_balance: credit(recipient_balance, amount) })
}

/// The pair's migration message; it carries nothing.
#[derive(Debug, Clone, Copy, PartialEq, Eq, Structural)]
pub struct MigrateMsg {}

} // verus!
