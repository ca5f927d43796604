//! Properties of the pair's arithmetic that hold across operations.

use vstd::prelude::*;
use vstd::set::fold::{is_fun_commutative, lemma_fold_empty, lemma_fold_insert};
use crate::pair::mint_within_cap;
use crate::math::{
    fee_amount, liquidity_defined, liquidity_for, ratio, swap_amount, swap_defined, swap_net_input,
    swap_output, withdrawal_defined,
};

verus! {

/// Rounding a constant-product quotient down never pays out more than the
/// exact share: `out * (reserve_in + net_in) <= reserve_out * net_in`.
proof fn lemma_output_rounds_down(reserve_in: int, reserve_out: int, net_in: int)
    requires
        0 <= reserve_in,
        0 <= reserve_out,
        0 <= net_in,
        0 < reserve_in + net_in,
    ensures
        swap_output(reserve_in, reserve_out, net_in) * (reserve_in + net_in) <= reserve_out * net_in,
        0 <= swap_output(reserve_in, reserve_out, net_in) <= reserve_out,
{
    let d = reserve_in + net_in;
    let q = reserve_out * net_in / d;
    assert(q * d <= reserve_out * net_in) by (nonlinear_arith)
        requires
            d > 0,
            q == reserve_out * net_in / d,
    ;
    assert(0 <= reserve_out * net_in) by (nonlinear_arith)
        requires
            0 <= reserve_out,
            0 <= net_in,
    ;
    assert(0 <= q) by (nonlinear_arith)
        requires
            d > 0,
            q == reserve_out * net_in / d,
            0 <= reserve_out * net_in,
    ;
    assert(reserve_out * net_in <= reserve_out * d) by (nonlinear_arith)
        requires
            0 <= reserve_out,
            net_in <= d,
    ;
    assert(q <= reserve_out) by (nonlinear_arith)
        requires
            d > 0,
            q * d <= reserve_out * d,
    ;
}

/// Both fees together take no more than the amount they are taken from when
/// the two percentages add up to at most 100%: the net input of a swap is
/// never negative, so the subtraction in the swap never underflows.
pub proof fn law_fees_within_amount(amount_in: u128, protocol_fee_percent: u128, lp_fee_percent: u128)
    requires
        protocol_fee_percent + lp_fee_percent <= 10000,
    ensures
        0 <= fee_amount(amount_in as int, protocol_fee_percent as int),
        0 <= fee_amount(amount_in as int, lp_fee_percent as int),
        0 <= swap_net_input(amount_in as int, protocol_fee_percent as int, lp_fee_percent as int)
            <= amount_in,
{
    let a = amount_in as int;
    let p = protocol_fee_percent as int;
    let l = lp_fee_percent as int;
    let fp = a * p / 10000;
    let fl = a * l / 10000;
    assert(0 <= fp && fp * 10000 <= a * p) by (nonlinear_arith)
        requires
            fp == a * p / 10000,
            0 <= a,
            0 <= p,
    ;
    assert(0 <= fl && fl * 10000 <= a * l) by (nonlinear_arith)
        requires
            fl == a * l / 10000,
            0 <= a,
            0 <= l,
    ;
    assert(a * p + a * l <= a * 10000) by (nonlinear_arith)
        requires
            0 <= a,
            p + l <= 10000,
    ;
}

/// A swap never lowers the pool's constant product: with the whole
/// `amount_in` added to the input reserve and the swap amount taken from the
/// output reserve, `(reserve_in + amount_in) * (reserve_out - out)` is at
/// least `reserve_in * reserve_out`, and the pool is never asked to pay out
/// more than it holds; a pool holding both assets is never emptied of the
/// output asset.
pub proof fn law_swap_keeps_constant_product(
    reserve_in: u128,
    reserve_out: u128,
    amount_in: u128,
    protocol_fee_percent: u128,
    lp_fee_percent: u128,
)
    requires
        swap_defined(reserve_in, reserve_out, amount_in, protocol_fee_percent, lp_fee_percent),
    ensures
        ({
            let out = swap_amount(
                reserve_in as int,
                reserve_out as int,
                amount_in as int,
                protocol_fee_percent as int,
                lp_fee_percent as int,
            );
            &&& 0 <= out <= reserve_out
            &&& (reserve_in + amount_in) * (reserve_out - out) >= reserve_in * reserve_out
            &&& (reserve_in > 0 && reserve_out > 0 ==> out < reserve_out)
        }),
{
    let x = reserve_in as int;
    let y = reserve_out as int;
    let a = amount_in as int;
    let p = protocol_fee_percent as int;
    let l = lp_fee_percent as int;
    let n = swap_net_input(a, p, l);
    assert(0 <= a * p / 10000 && 0 <= a * l / 10000) by (nonlinear_arith)
        requires
            0 <= a,
            0 <= p,
            0 <= l,
    ;
    assert(n <= a);
    lemma_output_rounds_down(x, y, n);
    let out = swap_output(x, y, n);
    assert((x + a) * (y - out) >= x * y) by (nonlinear_arith)
        requires
            0 <= x,
            0 <= n <= a,
            0 <= out <= y,
            0 < x + n,
            out * (x + n) <= y * n,
    ;
    if x > 0 && y > 0 {
        assert(out < y) by (nonlinear_arith)
            requires
                0 < x,
                0 < y,
                0 <= n,
                out * (x + n) <= y * n,
        ;
    }
}

/// Withdrawing at most the whole supply of liquidity tokens never returns
/// more than either reserve holds.
pub proof fn law_withdrawal_within_reserves(
    lp_amount: u128,
    reserve0: u128,
    reserve1: u128,
    total_supply: u128,
)
    requires
        withdrawal_defined(lp_amount, reserve0, reserve1, total_supply),
        lp_amount <= total_supply,
    ensures
        ratio(lp_amount as int, reserve0 as int, total_supply as int) <= reserve0,
        ratio(lp_amount as int, reserve1 as int, total_supply as int) <= reserve1,
{
    lemma_share_within(lp_amount as int, reserve0 as int, total_supply as int);
    lemma_share_within(lp_amount as int, reserve1 as int, total_supply as int);
}

proof fn lemma_share_within(part: int, whole: int, total: int)
    requires
        0 <= part <= total,
        0 < total,
        0 <= whole,
    ensures
        0 <= ratio(part, whole, total) <= whole,
{
    let q = part * whole / total;
    assert(0 <= q <= whole) by (nonlinear_arith)
        requires
            q == part * whole / total,
            0 <= part <= total,
            0 < total,
            0 <= whole,
    ;
}

/// Adding liquidity to a pool that already has liquidity tokens and then
/// withdrawing the tokens minted for it returns at most what was deposited
/// of each asset: with reserves `reserve_i + amount_i` and supply
/// `total_supply + minted` after the deposit, the withdrawal of `minted`
/// returns no more than `amount_i`.
pub proof fn law_deposit_then_withdraw_no_gain(
    amount0: u128,
    amount1: u128,
    total_supply: u128,
    reserve0: u128,
    reserve1: u128,
)
    requires
        total_supply > 0,
        liquidity_defined(amount0, amount1, total_supply, reserve0, reserve1),
    ensures
        ({
            let minted = liquidity_for(
                amount0 as int,
                amount1 as int,
                total_supply as int,
                reserve0 as int,
                reserve1 as int,
            );
            &&& ratio(minted, reserve0 + amount0, total_supply + minted) <= amount0
            &&& ratio(minted, reserve1 + amount1, total_supply + minted) <= amount1
        }),
{
    let m = liquidity_for(
        amount0 as int,
        amount1 as int,
        total_supply as int,
        reserve0 as int,
        reserve1 as int,
    );
    let s0 = ratio(amount0 as int, total_supply as int, reserve0 as int);
    let s1 = ratio(amount1 as int, total_supply as int, reserve1 as int);
    assert(m <= s0 && m <= s1);
    lemma_share_bound(amount0 as int, total_supply as int, reserve0 as int, m);
    lemma_share_bound(amount1 as int, total_supply as int, reserve1 as int, m);
}

/// If `m <= amount * supply / reserve` then withdrawing `m` of `supply + m`
/// from `reserve + amount` returns at most `amount`.
proof fn lemma_share_bound(amount: int, supply: int, reserve: int, m: int)
    requires
        0 <= amount,
        0 < supply,
        0 < reserve,
        0 <= m <= amount * supply / reserve,
    ensures
        m * (reserve + amount) / (supply + m) <= amount,
{
    let s = amount * supply / reserve;
    assert(s * reserve <= amount * supply) by (nonlinear_arith)
        requires
            0 < reserve,
            s == amount * supply / reserve,
    ;
    assert(m * reserve <= amount * supply) by (nonlinear_arith)
        requires
            0 < reserve,
            0 <= m <= s,
            s * reserve <= amount * supply,
    ;
    assert(m * (reserve + amount) <= amount * (supply + m)) by (nonlinear_arith)
        requires
            m * reserve <= amount * supply,
    ;
    let q = m * (reserve + amount) / (supply + m);
    assert(q <= amount) by (nonlinear_arith)
        requires
            0 < supply + m,
            q == m * (reserve + amount) / (supply + m),
            m * (reserve + amount) <= amount * (supply + m),
    ;
}

/// The step that adds one account's balance to a running total.
pub open spec fn add_balance(balances: Map<Seq<char>, u128>) -> spec_fn(int, Seq<char>) -> int {
    |total: int, account: Seq<char>| total + balances[account]
}

/// The sum of all balances of the liquidity token.
pub open spec fn balance_total(balances: Map<Seq<char>, u128>) -> int {
    balances.dom().fold(0int, add_balance(balances))
}

/// The balance of `account`; an account without an entry holds nothing.
pub open spec fn balance_of(balances: Map<Seq<char>, u128>, account: Seq<char>) -> int {
    if balances.dom().contains(account) {
        balances[account] as int
    } else {
        0
    }
}

proof fn lemma_add_balance_commutative(balances: Map<Seq<char>, u128>)
    ensures
        is_fun_commutative(add_balance(balances)),
{
    assert forall|a1: Seq<char>, a2: Seq<char>, b: int| #[trigger]
        add_balance(balances)(add_balance(balances)(b, a2), a1) == add_balance(balances)(
            add_balance(balances)(b, a1),
            a2,
        ) by {}
}

/// Summing two balance maps over accounts on which they agree gives the same total.
proof fn lemma_fold_agrees(
    accounts: Set<Seq<char>>,
    start: int,
    b1: Map<Seq<char>, u128>,
    b2: Map<Seq<char>, u128>,
)
    requires
        accounts.finite(),
        forall|k: Seq<char>| accounts.contains(k) ==> b1[k] == b2[k],
    ensures
        accounts.fold(start, add_balance(b1)) == accounts.fold(start, add_balance(b2)),
    decreases accounts.len(),
{
    lemma_add_balance_commutative(b1);
    lemma_add_balance_commutative(b2);
    if accounts.len() == 0 {
        assert(accounts =~= Set::<Seq<char>>::empty());
        lemma_fold_empty(start, add_balance(b1));
        lemma_fold_empty(start, add_balance(b2));
    } else {
        let a = accounts.choose();
        let rest = accounts.remove(a);
        lemma_fold_agrees(rest, start, b1, b2);
        assert(rest.insert(a) =~= accounts);
        lemma_fold_insert(rest, start, add_balance(b1), a);
        lemma_fold_insert(rest, start, add_balance(b2), a);
    }
}

/// A mint keeps the liquidity token's books balanced: if the balances add
/// up to the total supply before an accepted mint of `amount` to
/// `recipient`, then after the recipient's balance is raised by `amount`
/// and no other balance changes, they add up to the new supply
/// `total_supply + amount`.
pub proof fn law_mint_keeps_supply_equal_to_balances(
    balances: Map<Seq<char>, u128>,
    total_supply: u128,
    cap: Option<u128>,
    recipient: Seq<char>,
    amount: u128,
)
    requires
        balances.dom().finite(),
        balance_total(balances) == total_supply,
        total_supply + amount <= u128::MAX,
        mint_within_cap(total_supply, cap, amount),
        balance_of(balances, recipient) + amount <= u128::MAX,
    ensures
        balance_total(
            balances.insert(recipient, (balance_of(balances, recipient) + amount) as u128),
        ) == total_supply + amount,
{
    let new_balance = (balance_of(balances, recipient) + amount) as u128;
    let after = balances.insert(recipient, new_balance);
    let accounts = balances.dom();
    lemma_add_balance_commutative(balances);
    lemma_add_balance_commutative(after);
    if accounts.contains(recipient) {
        let rest = accounts.remove(recipient);
        assert(rest.insert(recipient) =~= accounts);
        assert(after.dom() =~= accounts);
        lemma_fold_insert(rest, 0int, add_balance(balances), recipient);
        lemma_fold_insert(rest, 0int, add_balance(after), recipient);
        lemma_fold_agrees(rest, 0int, balances, after);
    } else {
        assert(after.dom() =~= accounts.insert(recipient));
        lemma_fold_insert(accounts, 0int, add_balance(after), recipient);
        lemma_fold_agrees(accounts, 0int, balances, after);
    }
}

/// A mint stays within the cap exactly when there is no cap or the new
/// supply `total_supply + amount` is at most the cap.
pub proof fn law_mint_cap_bound(total_supply: u128, cap: Option<u128>, amount: u128)
    ensures
        mint_within_cap(total_supply, cap, amount) <==> match cap {
            None => true,
            Some(limit) => total_supply + amount <= limit,
        },
{
}

} // verus!
