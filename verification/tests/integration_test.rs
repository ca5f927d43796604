use nibiru_hack::factory::{
    self, create_pair, instantiate_reply, pair_id, register_pool, FactoryConfig, FactoryError,
    INSTANTIATE_PAIR_REPLY_ID, UPDATE_MINTER_REPLY_ID,
};
use nibiru_hack::math::{checked_swap_amount, checked_withdrawal_amounts};
use nibiru_hack::pair::{
    self, add_liquidity, execute_mint, query_amount_out, query_lp_token_amount, swap,
    Coin, CosmosAction, Minted, Fees, PairError, PairInfo,
};
use nibiru_hack::router::{Config, QueryResponse};
use nibiru_hack::token::{Token, TokenInfo};

const TOKEN1: &str = "contract0";
const TOKEN2: &str = "contract1";
const FACTORY: &str = "contract2";
const PAIR: &str = "contract4";
const USER: &str = "user";

fn cw20(addr: &str) -> TokenInfo {
    TokenInfo::CW20Token { contract_addr: addr.to_string() }
}

fn token(info: TokenInfo, amount: u128) -> Token {
    Token { info, amount }
}

fn pair_of_mock_tokens() -> (PairInfo, Fees) {
    pair::instantiate([cw20(TOKEN1), cw20(TOKEN2)], 18, "treasury".to_string())
}

/// Protobuf encoding of an instantiation response carrying `addr`.
fn instantiate_response(addr: &str) -> Vec<u8> {
    let mut data = vec![0x0a, addr.len() as u8];
    data.extend_from_slice(addr.as_bytes());
    data
}

#[test]
fn proper_initialization_test() {
    let config = factory::instantiate(3);
    assert_eq!(config, FactoryConfig { pair_code_id: 3 });
    let router = Config { factory_addr: FACTORY.to_string() };
    assert_eq!(router.factory_addr, FACTORY);
    let (pair_info, fees) = pair_of_mock_tokens();
    assert_eq!(pair_info.assets, [cw20(TOKEN1), cw20(TOKEN2)]);
    assert_eq!(pair_info.lp_token_decimal, 18);
    assert_eq!(fees.lp_fee_percent, 30);
    assert_eq!(fees.protocol_fee_percent, 10);
    assert_eq!(fees.protocol_fee_recipient, "treasury");
}

#[test]
fn create_pair_test() {
    let config = factory::instantiate(3);
    let created = create_pair(&config, &FACTORY.to_string(), [cw20(TOKEN1), cw20(TOKEN2)], false)
        .unwrap();
    assert_eq!(created.temp.pool_id, b"contract0contract1".to_vec());
    assert_eq!(created.temp.assets, [cw20(TOKEN1), cw20(TOKEN2)]);
    let inst = &created.instantiate;
    assert_eq!(inst.code_id, 3);
    assert_eq!(inst.admin, FACTORY);
    assert_eq!(inst.label, "pair contract");
    assert_eq!(inst.token_info, [cw20(TOKEN1), cw20(TOKEN2)]);
    assert_eq!(inst.lp_token_decimal, 18);
    assert_eq!(inst.lp_token_name, "pair token");
    assert_eq!(inst.lp_token_symbol, "pair");
    assert_eq!(inst.lp_token_decimals, 18);
    assert_eq!(inst.minter, FACTORY);
    assert_eq!(inst.reply_id, INSTANTIATE_PAIR_REPLY_ID);

    let registered = instantiate_reply(
        created.temp,
        INSTANTIATE_PAIR_REPLY_ID,
        Ok(Some(instantiate_response(PAIR))),
    )
    .unwrap();
    assert_eq!(registered.pool.pair_addr, PAIR);
    assert_eq!(registered.update_minter.pair_addr, PAIR);
    assert_eq!(registered.update_minter.new_minter, PAIR);
    assert_eq!(registered.update_minter.reply_id, UPDATE_MINTER_REPLY_ID);
}

#[test]
fn query_pair_info_test() {
    let config = factory::instantiate(3);
    let created = create_pair(&config, &FACTORY.to_string(), [cw20(TOKEN1), cw20(TOKEN2)], false)
        .unwrap();
    let registered = register_pool(created.temp, PAIR.to_string());
    // The query for the two tokens reads the key the registration wrote.
    assert_eq!(pair_id(&[cw20(TOKEN1), cw20(TOKEN2)]), registered.pool_id);
    assert_eq!(registered.pool.pair_addr, PAIR);
    assert_eq!(registered.pool.assets, [cw20(TOKEN1), cw20(TOKEN2)]);
}

#[test]
fn add_liquidity_test() {
    let (pair_info, _) = pair_of_mock_tokens();
    let assets = [token(cw20(TOKEN1), 100), token(cw20(TOKEN2), 100)];
    // Empty pool: no liquidity tokens, no balances.
    assert_eq!(query_lp_token_amount(&pair_info, &assets, 0, 0, 0), Ok(100));
    let added =
        add_liquidity(&pair_info, &USER.to_string(), &PAIR.to_string(), &assets, 1, 0, 0, 0).unwrap();
    assert_eq!(added.liquidity_minted, 100);
    assert_eq!(
        added.messages,
        vec![
            CosmosAction::Cw20TransferFrom {
                contract_addr: TOKEN1.to_string(),
                owner: USER.to_string(),
                recipient: PAIR.to_string(),
                amount: 100,
            },
            CosmosAction::Cw20TransferFrom {
                contract_addr: TOKEN2.to_string(),
                owner: USER.to_string(),
                recipient: PAIR.to_string(),
                amount: 100,
            },
        ]
    );
    // The tokens go to the depositor, who held none: supply and balance become 100.
    assert_eq!(added.mint_recipient, USER);
    assert_eq!(
        execute_mint(0, None, None, added.liquidity_minted),
        Ok(Minted { total_supply: 100, recipient_balance: 100 })
    );
}

#[test]
fn swap_token_test() {
    let (pair_info, fees) = pair_of_mock_tokens();
    // After the deposit of 100 of each token.
    let swapped = swap(
        &pair_info,
        &fees,
        &USER.to_string(),
        &PAIR.to_string(),
        &vec![],
        &cw20(TOKEN1),
        &cw20(TOKEN2),
        20,
        5,
        100,
        100,
    )
    .unwrap();
    // No fee on 20 at 10 and 30 basis points; 100 * 20 / 120.
    assert_eq!(swapped.amount_out, 16);
    assert_eq!(
        swapped.messages,
        vec![
            CosmosAction::Cw20TransferFrom {
                contract_addr: TOKEN1.to_string(),
                owner: USER.to_string(),
                recipient: PAIR.to_string(),
                amount: 20,
            },
            CosmosAction::Cw20Transfer {
                contract_addr: TOKEN2.to_string(),
                recipient: USER.to_string(),
                amount: 16,
            },
        ]
    );
    assert_eq!(query_amount_out(100, 100, 20, &fees), 16);
}

#[test]
fn withdraw_liquidity() {
    let (pair_info, _) = pair_of_mock_tokens();
    let lp = token(cw20(TOKEN1), 20);
    let withdrawn = pair::withdraw_liquidity(&pair_info, &USER.to_string(), &lp, 100, 100, 100);
    assert_eq!(withdrawn.assets_returned, [20, 20]);
    assert_eq!(
        withdrawn.messages,
        vec![
            CosmosAction::Cw20Transfer {
                contract_addr: TOKEN1.to_string(),
                recipient: USER.to_string(),
                amount: 20,
            },
            CosmosAction::Cw20Transfer {
                contract_addr: TOKEN2.to_string(),
                recipient: USER.to_string(),
                amount: 20,
            },
        ]
    );
}

#[test]
fn pair_id_orders_assets() {
    let forward = pair_id(&[cw20("b"), cw20("a")]);
    let backward = pair_id(&[cw20("a"), cw20("b")]);
    assert_eq!(forward, b"ab".to_vec());
    assert_eq!(forward, backward);
    // A shorter prefix comes first.
    assert_eq!(pair_id(&[cw20("ab"), cw20("a")]), b"aab".to_vec());
    assert_eq!(
        pair_id(&[TokenInfo::NativeToken { denom: "unibi".to_string() }, cw20("nibi1xyz")]),
        b"nibi1xyzunibi".to_vec()
    );
}

#[test]
fn existing_pair_is_refused_in_either_order() {
    let config = factory::instantiate(7);
    let r = create_pair(&config, &FACTORY.to_string(), [cw20(TOKEN2), cw20(TOKEN1)], true);
    assert!(matches!(r, Err(FactoryError::PairAlreadyExists)));
}

#[test]
fn failed_or_empty_replies_are_errors() {
    let temp = create_pair(&factory::instantiate(1), &FACTORY.to_string(), [cw20(TOKEN1), cw20(TOKEN2)], false)
        .unwrap()
        .temp;
    let failed = instantiate_reply(temp.clone(), 1, Err("out of gas".to_string()));
    assert!(matches!(failed, Err(FactoryError::ReplyParse(ref m)) if m.contains("out of gas")));
    let missing = instantiate_reply(temp.clone(), 1, Ok(None));
    assert!(matches!(missing, Err(FactoryError::ReplyParse(ref m)) if m.contains("Missing reply data")));
    let garbage = instantiate_reply(temp, 1, Ok(Some(vec![0x12, 0x01, 0x00])));
    assert!(matches!(garbage, Err(FactoryError::ReplyParse(_))));
}

#[test]
fn swap_refusals() {
    let (pair_info, fees) = pair_of_mock_tokens();
    let user = USER.to_string();
    let c = PAIR.to_string();
    let t1 = cw20(TOKEN1);
    let t2 = cw20(TOKEN2);
    let other = cw20("contract9");
    let none: Vec<Coin> = vec![];
    let r = swap(&pair_info, &fees, &user, &c, &none, &t1, &t1, 20, 0, 100, 100);
    assert_eq!(r.unwrap_err(), PairError::SameToken);
    let r = swap(&pair_info, &fees, &user, &c, &none, &other, &t2, 20, 0, 100, 100);
    assert_eq!(r.unwrap_err(), PairError::PairNotFound);
    let r = swap(&pair_info, &fees, &user, &c, &none, &t1, &t2, 20, 17, 100, 100);
    assert_eq!(r.unwrap_err(), PairError::InsufficientAmountOut);

    let native = TokenInfo::NativeToken { denom: "unibi".to_string() };
    let (native_pair, nfees) =
        pair::instantiate([native.clone(), t2.clone()], 6, "treasury".to_string());
    let short = vec![Coin { denom: "unibi".to_string(), amount: 19 }];
    let r = swap(&native_pair, &nfees, &user, &c, &short, &native, &t2, 20, 0, 100, 100);
    assert_eq!(r.unwrap_err(), PairError::InsufficientFunds);
    let wrong = vec![Coin { denom: "uatom".to_string(), amount: 20 }];
    let r = swap(&native_pair, &nfees, &user, &c, &wrong, &native, &t2, 20, 0, 100, 100);
    assert_eq!(r.unwrap_err(), PairError::InvalidDenomination);
}

#[test]
fn native_swap_with_fees() {
    let native = TokenInfo::NativeToken { denom: "unibi".to_string() };
    let t2 = cw20(TOKEN2);
    let (pair_info, fees) = pair::instantiate([native.clone(), t2.clone()], 6, "treasury".to_string());
    let funds = vec![Coin { denom: "unibi".to_string(), amount: 10_000 }];
    let s = swap(
        &pair_info,
        &fees,
        &USER.to_string(),
        &PAIR.to_string(),
        &funds,
        &native,
        &t2,
        10_000,
        0,
        90_000,
        1_000_000,
    )
    .unwrap();
    // fees: 10 to the protocol, 30 to liquidity providers; net 9_960;
    // 1_000_000 * 9_960 / 99_960.
    assert_eq!(s.amount_out, 99_639);
    assert_eq!(
        s.messages,
        vec![
            CosmosAction::BankSend { to_address: USER.to_string(), denom: "unibi".to_string(), amount: 10 },
            CosmosAction::Cw20Transfer {
                contract_addr: TOKEN2.to_string(),
                recipient: USER.to_string(),
                amount: 99_639,
            },
        ]
    );
}

#[test]
fn cw20_protocol_fee_goes_to_recipient() {
    let (pair_info, fees) = pair_of_mock_tokens();
    let s = swap(
        &pair_info,
        &fees,
        &USER.to_string(),
        &PAIR.to_string(),
        &vec![],
        &cw20(TOKEN2),
        &cw20(TOKEN1),
        5_000,
        0,
        10_000,
        10_000,
    )
    .unwrap();
    // protocol fee 5, lp fee 15, net 4_980: 10_000 * 4_980 / 14_980.
    assert_eq!(s.amount_out, 3_324);
    assert_eq!(s.messages[1], CosmosAction::Cw20TransferFrom {
        contract_addr: TOKEN2.to_string(),
        owner: USER.to_string(),
        recipient: "treasury".to_string(),
        amount: 5,
    });
}

#[test]
fn swap_arithmetic_limits() {
    // Dividing by an empty pool and an empty input.
    assert_eq!(checked_swap_amount(0, 100, 0, 10, 30), None);
    // Overflow of the fee product.
    assert_eq!(checked_swap_amount(1, 1, u128::MAX, 10, 30), None);
    // Fees above the whole amount.
    assert_eq!(checked_swap_amount(1, 1, 100, 6_000, 6_000), None);
    assert_eq!(checked_swap_amount(1, 1, 100, 5_000, 5_000), Some(0));
}

#[test]
fn deposit_shares_and_refusal() {
    let (pair_info, _) = pair_of_mock_tokens();
    let assets = [token(cw20(TOKEN1), 50), token(cw20(TOKEN2), 30)];
    // min(50 * 100 / 100, 30 * 100 / 120) = 25
    assert_eq!(query_lp_token_amount(&pair_info, &assets, 100, 100, 120), Ok(25));
    let r = add_liquidity(&pair_info, &USER.to_string(), &PAIR.to_string(), &assets, 26, 100, 100, 120);
    assert!(matches!(r, Err(PairError::InsufficientLiquidity { minted: 25 })));
    let wrong = [token(cw20(TOKEN1), 50), token(cw20("contract9"), 30)];
    assert_eq!(query_lp_token_amount(&pair_info, &wrong, 100, 100, 120), Err(PairError::PairNotFound));
    // Reverse order is accepted: reserves follow the given order.
    let reversed = [token(cw20(TOKEN2), 30), token(cw20(TOKEN1), 50)];
    assert_eq!(query_lp_token_amount(&pair_info, &reversed, 100, 120, 100), Ok(25));
}

#[test]
fn share_ratio_uses_wide_intermediate() {
    // u128::MAX * 2 does not fit in 128 bits, the quotient does.
    assert_eq!(nibiru_hack::math::multiply_ratio(u128::MAX, 2, 4), u128::MAX / 2);
    assert_eq!(checked_withdrawal_amounts(u128::MAX, 3, 3, 3), Some((u128::MAX, u128::MAX)));
    assert_eq!(checked_withdrawal_amounts(u128::MAX, 4, 3, 3), None);
    assert_eq!(checked_withdrawal_amounts(1, 4, 3, 0), None);
}

#[test]
fn mint_respects_cap() {
    assert_eq!(
        execute_mint(90, Some(100), Some(40), 10),
        Ok(Minted { total_supply: 100, recipient_balance: 50 })
    );
    assert_eq!(execute_mint(90, Some(100), Some(40), 11), Err(pair::MintError::CannotExceedCap));
    assert_eq!(
        execute_mint(90, None, None, 11),
        Ok(Minted { total_supply: 101, recipient_balance: 11 })
    );
    // Over the cap the mint is refused even where the credit would not fit.
    assert_eq!(
        execute_mint(90, Some(100), Some(u128::MAX), 11),
        Err(pair::MintError::CannotExceedCap)
    );
    assert!(pair::within_cap(90, Some(100), 10));
    assert!(!pair::within_cap(90, Some(100), 11));
    assert!(pair::within_cap(90, None, 11));
    assert_eq!(pair::credit(Some(7), 5), 12);
    assert_eq!(pair::credit(None, 5), 5);
}

#[test]
fn constant_product_never_drops() {
    let (x, y, a) = (1_000u128, 5_000u128, 333u128);
    let out = checked_swap_amount(x, y, a, 10, 30).unwrap();
    assert!((x + a) * (y - out) >= x * y);
    assert!(out <= y);
}

#[test]
fn deposit_then_withdraw_returns_no_more() {
    let (pair_info, _) = pair_of_mock_tokens();
    let (ts, r0, r1) = (1_000u128, 3_000u128, 7_000u128);
    let assets = [token(cw20(TOKEN1), 301), token(cw20(TOKEN2), 699)];
    let minted = query_lp_token_amount(&pair_info, &assets, ts, r0, r1).unwrap();
    let lp = token(cw20(TOKEN1), minted);
    let back = pair::withdraw_liquidity(&pair_info, &USER.to_string(), &lp, ts + minted, r0 + 301, r1 + 699);
    assert!(back.assets_returned[0] <= 301);
    assert!(back.assets_returned[1] <= 699);
}

#[test]
fn router_answers() {
    let q = QueryResponse::FactoryAddr { factory_addr: FACTORY.to_string() };
    match q {
        QueryResponse::FactoryAddr { factory_addr } => assert_eq!(factory_addr, FACTORY),
    }
}

#[test]
fn instantiated_fees_never_exceed_amount() {
    let (_, fees) = pair_of_mock_tokens();
    // The largest input whose fee products fit: the net input stays nonnegative.
    let amount = u128::MAX / 30;
    assert_eq!(
        checked_swap_amount(1, 1, amount, fees.protocol_fee_percent, fees.lp_fee_percent),
        Some(0)
    );
    // An empty input reserve gives the whole output reserve: net 9_961 of 9_999.
    assert_eq!(checked_swap_amount(0, 1_000, 9_999, 10, 30), Some(1_000));
}

#[test]
fn mint_keeps_books_balanced() {
    // Balances 40 and 50 make up a supply of 90; minting 10 to the first.
    let other = 50u128;
    let m = execute_mint(40 + other, None, Some(40), 10).unwrap();
    assert_eq!(m.recipient_balance + other, m.total_supply);
    // To an account without a balance.
    let m = execute_mint(40 + other, None, None, 10).unwrap();
    assert_eq!(40 + other + m.recipient_balance, m.total_supply);
}
