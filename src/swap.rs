//! Pricing of a one-directional exchange against the constant-product curve,
//! with the fee taken on the input and kept in the pool.
use vstd::prelude::*;

use crate::error::AmmError;
use crate::guard::{div_floor, mul_wide, narrow};

verus! {

/// Fee rates are parts per ten thousand.
pub const BPS_DENOMINATOR: u128 = 10000;

/// The outcome of a successful swap quote.
#[derive(Clone, Copy, Debug, PartialEq, Eq, Structural)]
pub struct SwapQuote {
    /// Amount the pool pays out of its output reserve.
    pub amount_out: u64,
    /// Part of the input retained as fee; it stays in the input reserve.
    pub fee_amount: u64,
}

/// Fee retained from `amount_in`, rounded down.
pub open spec fn fee_of(amount_in: u64, fee_bps: u16) -> int {
    (amount_in * fee_bps) / 10000
}

/// Input left after the fee.
pub open spec fn net_in_of(amount_in: u64, fee_bps: u16) -> int {
    amount_in - fee_of(amount_in, fee_bps)
}

/// Input reserve used to price the swap: the old reserve plus the net input.
pub open spec fn new_reserve_in_of(reserve_in: u64, amount_in: u64, fee_bps: u16) -> int {
    reserve_in + net_in_of(amount_in, fee_bps)
}

/// Amount paid out: the output reserve's share `net_in / new_reserve_in`,
/// rounded down, so any remainder stays with the pool.
pub open spec fn amount_out_of(reserve_in: u64, reserve_out: u64, amount_in: u64, fee_bps: u16) -> int {
    (reserve_out * net_in_of(amount_in, fee_bps)) / new_reserve_in_of(reserve_in, amount_in, fee_bps)
}

/// Output reserve left after the payout; it is the product of the old
/// reserves over the new input reserve, rounded up.
pub open spec fn new_reserve_out_of(
    reserve_in: u64,
    reserve_out: u64,
    amount_in: u64,
    fee_bps: u16,
) -> int {
    reserve_out - amount_out_of(reserve_in, reserve_out, amount_in, fee_bps)
}

/// The full outcome of a swap quote, errors included, in the order they are checked.
pub open spec fn swap_result(
    reserve_in: u64,
    reserve_out: u64,
    fee_bps: u16,
    amount_in: u64,
    min_out: u64,
) -> Result<SwapQuote, AmmError> {
    if fee_of(amount_in, fee_bps) > amount_in {
        Err(AmmError::Underflow)
    } else if new_reserve_in_of(reserve_in, amount_in, fee_bps) > u64::MAX {
        Err(AmmError::Overflow)
    } else if new_reserve_in_of(reserve_in, amount_in, fee_bps) == 0 {
        Err(AmmError::DivisionByZero)
    } else if amount_out_of(reserve_in, reserve_out, amount_in, fee_bps) < min_out {
        Err(AmmError::SlippageExceeded)
    } else {
        Ok(
            SwapQuote {
                amount_out: amount_out_of(reserve_in, reserve_out, amount_in, fee_bps) as u64,
                fee_amount: fee_of(amount_in, fee_bps) as u64,
            },
        )
    }
}

/// With a positive new input reserve the payout lies between zero and the
/// whole output reserve.
proof fn lemma_amount_out_bounded(reserve_in: u64, reserve_out: u64, amount_in: u64, fee_bps: u16)
    requires
        fee_of(amount_in, fee_bps) <= amount_in,
        new_reserve_in_of(reserve_in, amount_in, fee_bps) > 0,
    ensures
        0 <= amount_out_of(reserve_in, reserve_out, amount_in, fee_bps) <= reserve_out,
        0 <= new_reserve_out_of(reserve_in, reserve_out, amount_in, fee_bps) <= reserve_out,
{
    let n = new_reserve_in_of(reserve_in, amount_in, fee_bps);
    let net = net_in_of(amount_in, fee_bps);
    assert(0 <= reserve_out * net <= n * reserve_out) by (nonlinear_arith)
        requires
            0 <= net <= n,
            0 <= reserve_out,
    ;
    vstd::arithmetic::div_mod::lemma_multiply_divide_le(reserve_out * net, n, reserve_out as int);
    vstd::arithmetic::div_mod::lemma_div_pos_is_pos(reserve_out * net, n);
}

/// Payout bound: with positive reserves, a fee rate of at most 10000 and a
/// positive input, the payout lies in `[0, reserve_out)`: the pool is never
/// drained by a swap.
pub proof fn lemma_swap_output_below_reserve(
    reserve_in: u64,
    reserve_out: u64,
    fee_bps: u16,
    amount_in: u64,
    min_out: u64,
)
    requires
        reserve_in > 0,
        reserve_out > 0,
        fee_bps <= 10000,
        amount_in > 0,
    ensures
        0 <= amount_out_of(reserve_in, reserve_out, amount_in, fee_bps) < reserve_out,
        match swap_result(reserve_in, reserve_out, fee_bps, amount_in, min_out) {
            Ok(q) => q.amount_out < reserve_out,
            Err(_) => true,
        },
{
    lemma_fee_within_input(amount_in, fee_bps);
    lemma_amount_out_bounded(reserve_in, reserve_out, amount_in, fee_bps);
    let n = new_reserve_in_of(reserve_in, amount_in, fee_bps);
    let net = net_in_of(amount_in, fee_bps);
    assert(reserve_out * net < n * reserve_out) by (nonlinear_arith)
        requires
            0 <= net < n,
            0 < reserve_out,
    ;
    vstd::arithmetic::div_mod::lemma_multiply_divide_lt(reserve_out * net, n, reserve_out as int);
}

/// With a fee rate of at most 10000 the fee never exceeds the input.
proof fn lemma_fee_within_input(amount_in: u64, fee_bps: u16)
    requires
        fee_bps <= 10000,
    ensures
        0 <= fee_of(amount_in, fee_bps) <= amount_in,
{
    assert(amount_in * fee_bps <= amount_in * 10000) by (nonlinear_arith)
        requires
            fee_bps <= 10000,
            amount_in >= 0,
    ;
    vstd::arithmetic::div_mod::lemma_div_is_ordered(
        amount_in * fee_bps,
        amount_in * 10000,
        10000,
    );
    vstd::arithmetic::div_mod::lemma_div_by_multiple(amount_in as int, 10000);
    vstd::arithmetic::div_mod::lemma_div_pos_is_pos(amount_in * fee_bps, 10000);
}

/// Product of the reserves: with a positive input reserve and a fee rate of at
/// most 10000, the new input reserve times the output reserve left after the
/// payout is at least the product of the old reserves; so is the pool as the
/// swap leaves it, which also keeps the fee in its input reserve.
pub proof fn lemma_swap_keeps_product(reserve_in: u64, reserve_out: u64, fee_bps: u16, amount_in: u64)
    requires
        reserve_in > 0,
        fee_bps <= 10000,
    ensures
        new_reserve_in_of(reserve_in, amount_in, fee_bps) * new_reserve_out_of(
            reserve_in,
            reserve_out,
            amount_in,
            fee_bps,
        ) >= reserve_in * reserve_out,
        (reserve_in + amount_in) * new_reserve_out_of(
            reserve_in,
            reserve_out,
            amount_in,
            fee_bps,
        ) >= reserve_in * reserve_out,
{
    lemma_fee_within_input(amount_in, fee_bps);
    lemma_amount_out_bounded(reserve_in, reserve_out, amount_in, fee_bps);
    let n = new_reserve_in_of(reserve_in, amount_in, fee_bps);
    let net = net_in_of(amount_in, fee_bps);
    let x = reserve_out * net;
    let q = amount_out_of(reserve_in, reserve_out, amount_in, fee_bps);
    vstd::arithmetic::div_mod::lemma_fundamental_div_mod(x, n);
    vstd::arithmetic::div_mod::lemma_mod_pos_bound(x, n);
    assert(n * q <= x);
    assert(n * (reserve_out - q) >= reserve_in * reserve_out) by (nonlinear_arith)
        requires
            n * q <= x,
            x == reserve_out * net,
            n == reserve_in + net,
    ;
    assert((reserve_in + amount_in) * (reserve_out - q) >= n * (reserve_out - q)) by (nonlinear_arith)
        requires
            reserve_in + amount_in >= n,
            reserve_out - q >= 0,
    ;
}

/// The input left after the fee never shrinks as the input grows.
proof fn lemma_net_in_monotone(a1: u64, a2: u64, fee_bps: u16)
    requires
        a1 <= a2,
        fee_of(a1, fee_bps) <= a1,
        fee_of(a2, fee_bps) <= a2,
    ensures
        net_in_of(a1, fee_bps) <= net_in_of(a2, fee_bps),
{
    if fee_bps <= 10000 {
        let d = a2 - a1;
        assert(a2 * fee_bps <= a1 * fee_bps + d * 10000) by (nonlinear_arith)
            requires
                fee_bps <= 10000,
                d == a2 - a1,
                d >= 0,
        ;
        vstd::arithmetic::div_mod::lemma_div_is_ordered(
            a2 * fee_bps,
            a1 * fee_bps + d * 10000,
            10000,
        );
        vstd::arithmetic::div_mod::lemma_hoist_over_denominator(a1 * fee_bps, d, 10000);
    } else {
        assert(a1 * 10000 <= a1 * fee_bps && a2 * 10000 <= a2 * fee_bps) by (nonlinear_arith)
            requires
                fee_bps > 10000,
                a1 >= 0,
                a2 >= 0,
        ;
        vstd::arithmetic::div_mod::lemma_div_is_ordered(a1 * 10000, a1 * fee_bps, 10000);
        vstd::arithmetic::div_mod::lemma_div_is_ordered(a2 * 10000, a2 * fee_bps, 10000);
        vstd::arithmetic::div_mod::lemma_div_by_multiple(a1 as int, 10000);
        vstd::arithmetic::div_mod::lemma_div_by_multiple(a2 as int, 10000);
    }
}

/// The share `reserve_out * net / (reserve_in + net)`, rounded down, never
/// shrinks as `net` grows.
proof fn lemma_share_monotone(reserve_in: int, reserve_out: int, net1: int, net2: int)
    requires
        0 <= reserve_in,
        0 <= reserve_out,
        0 <= net1 <= net2,
        reserve_in + net1 > 0,
    ensures
        (reserve_out * net1) / (reserve_in + net1) <= (reserve_out * net2) / (reserve_in + net2),
{
    let n1 = reserve_in + net1;
    let n2 = reserve_in + net2;
    let x1 = reserve_out * net1;
    let x2 = reserve_out * net2;
    let q1 = x1 / n1;
    vstd::arithmetic::div_mod::lemma_fundamental_div_mod(x1, n1);
    vstd::arithmetic::div_mod::lemma_mod_pos_bound(x1, n1);
    vstd::arithmetic::div_mod::lemma_div_pos_is_pos(x1, n1);
    assert(q1 * n1 <= x1);
    assert(x1 * n2 <= x2 * n1) by (nonlinear_arith)
        requires
            x1 == reserve_out * net1,
            x2 == reserve_out * net2,
            n1 == reserve_in + net1,
            n2 == reserve_in + net2,
            0 <= reserve_in,
            0 <= reserve_out,
            net1 <= net2,
    ;
    assert(q1 * n2 * n1 <= x2 * n1) by (nonlinear_arith)
        requires
            q1 * n1 <= x1,
            x1 * n2 <= x2 * n1,
            n2 > 0,
    ;
    assert(q1 * n2 <= x2) by (nonlinear_arith)
        requires
            q1 * n2 * n1 <= x2 * n1,
            n1 > 0,
    ;
    vstd::arithmetic::div_mod::lemma_div_is_ordered(q1 * n2, x2, n2);
    vstd::arithmetic::div_mod::lemma_div_by_multiple(q1, n2);
}

/// Monotonicity: with everything else fixed, a larger input never gets a
/// smaller payout when both quotes succeed.
pub proof fn lemma_swap_output_monotone(
    reserve_in: u64,
    reserve_out: u64,
    fee_bps: u16,
    a1: u64,
    a2: u64,
    min_out: u64,
)
    requires
        a1 <= a2,
    ensures
        match (
            swap_result(reserve_in, reserve_out, fee_bps, a1, min_out),
            swap_result(reserve_in, reserve_out, fee_bps, a2, min_out),
        ) {
            (Ok(q1), Ok(q2)) => q1.amount_out <= q2.amount_out,
            _ => true,
        },
{
    if swap_result(reserve_in, reserve_out, fee_bps, a1, min_out) is Ok && swap_result(
        reserve_in,
        reserve_out,
        fee_bps,
        a2,
        min_out,
    ) is Ok {
        lemma_net_in_monotone(a1, a2, fee_bps);
        lemma_amount_out_bounded(reserve_in, reserve_out, a1, fee_bps);
        lemma_amount_out_bounded(reserve_in, reserve_out, a2, fee_bps);
        lemma_share_monotone(
            reserve_in as int,
            reserve_out as int,
            net_in_of(a1, fee_bps),
            net_in_of(a2, fee_bps),
        );
    }
}

/// Determinism: a swap quote depends on its inputs alone, so two quotes on the
/// same inputs agree.
pub proof fn lemma_swap_quote_repeatable(
    reserve_in: u64,
    reserve_out: u64,
    fee_bps: u16,
    amount_in: u64,
    min_out: u64,
    first: Result<SwapQuote, AmmError>,
    second: Result<SwapQuote, AmmError>,
)
    requires
        first == swap_result(reserve_in, reserve_out, fee_bps, amount_in, min_out),
        second == swap_result(reserve_in, reserve_out, fee_bps, amount_in, min_out),
    ensures
        first == second,
{
}

/// Quotes a swap of `amount_in` into a pool holding `reserve_in` of the input
/// asset and `reserve_out` of the output asset, at `fee_bps` parts per ten
/// thousand.
///
/// The fee is `floor(amount_in * fee_bps / 10000)` and stays in the pool; the
/// rest is added to the input reserve. The payout is
/// `floor(reserve_out * net_in / new_reserve_in)`, so the output reserve left
/// is the product of the old reserves over the new input reserve rounded up,
/// and any rounding remainder stays with the pool. It must reach `min_out`.
/// A zero `amount_in` is a valid quote that pays nothing (it fails only where
/// the input reserve is empty too, as a zero divisor).
pub fn quote_swap(reserve_in: u64, reserve_out: u64, fee_bps: u16, amount_in: u64, min_out: u64) -> (r: Result<SwapQuote, AmmError>)
    ensures
        r == swap_result(reserve_in, reserve_out, fee_bps, amount_in, min_out),
{
    let fee_wide = mul_wide(amount_in, fee_bps as u64) / BPS_DENOMINATOR;
    if fee_wide > amount_in as u128 {
        return Err(AmmError::Underflow);
    }
    let fee_amount = fee_wide as u64;
    let net_in = amount_in - fee_amount;

    let new_reserve_in = match reserve_in.checked_add(net_in) {
        Some(v) => v,
        None => return Err(AmmError::Overflow),
    };
    let share = mul_wide(reserve_out, net_in);
    let amount_out_wide = match div_floor(share, new_reserve_in as u128) {
        Ok(v) => v,
        Err(e) => return Err(e),
    };
    proof {
        lemma_amount_out_bounded(reserve_in, reserve_out, amount_in, fee_bps);
    }
    let amount_out = match narrow(amount_out_wide) {
        Ok(v) => v,
        Err(e) => return Err(e),
    };
    if amount_out < min_out {
        return Err(AmmError::SlippageExceeded);
    }
    if amount_out > reserve_out {
        return Err(AmmError::InsufficientLiquidity);
    }
    Ok(SwapQuote { amount_out, fee_amount })
}

/// A snapshot of the pool as a swap sees it.
#[derive(Clone, Copy, Debug, PartialEq, Eq, Structural)]
pub struct Swap {
    /// Balance of asset X held by the pool.
    pub vault_x: u64,
    /// Balance of asset Y held by the pool.
    pub vault_y: u64,
    /// Fee rate in parts per ten thousand.
    pub fee: u16,
}

impl Swap {
    /// Reserves as `(input, output)` for the given direction: `is_x` means
    /// asset X goes in and asset Y comes out.
    pub open spec fn reserves_for(self, is_x: bool) -> (u64, u64) {
        if is_x {
            (self.vault_x, self.vault_y)
        } else {
            (self.vault_y, self.vault_x)
        }
    }

    /// Quotes swapping `amount` of X for Y (`is_x`) or of Y for X, paying at
    /// least `min`.
    pub fn swap(&self, is_x: bool, amount: u64, min: u64) -> (r: Result<SwapQuote, AmmError>)
        ensures
            r == swap_result(
                self.reserves_for(is_x).0,
                self.reserves_for(is_x).1,
                self.fee,
                amount,
                min,
            ),
    {
        let (reserve_in, reserve_out) = if is_x {
            (self.vault_x, self.vault_y)
        } else {
            (self.vault_y, self.vault_x)
        };
        quote_swap(reserve_in, reserve_out, self.fee, amount, min)
    }
}

} // verus!
