use vstd::prelude::*;
use vstd::arithmetic::div_mod::lemma_div_by_self;
use vstd::arithmetic::div_mod::lemma_div_is_ordered;
use vstd::arithmetic::div_mod::lemma_div_is_ordered_by_denominator;
use vstd::arithmetic::div_mod::lemma_div_multiples_vanish;
use vstd::arithmetic::div_mod::lemma_div_pos_is_pos;
use vstd::arithmetic::div_mod::lemma_fundamental_div_mod;
use vstd::arithmetic::div_mod::lemma_mod_division_less_than_divisor;
use vstd::arithmetic::div_mod::lemma_multiply_divide_le;
use vstd::arithmetic::div_mod::lemma_multiply_divide_lt;
use vstd::arithmetic::mul::lemma_mul_inequality;
use vstd::arithmetic::mul::lemma_mul_nonnegative;
use vstd::arithmetic::mul::lemma_mul_strict_inequality;
use vstd::arithmetic::mul::lemma_mul_upper_bound;
use crate::errors::ErrorCode;

verus! {

/// The constant-product quote. Trading `amount_in` into a pool that holds
/// `reserve_in` of the incoming asset and `reserve_out` of the outgoing
/// asset keeps `reserve_in * reserve_out` constant up to the flooring of
/// one division:
///
/// ```text
/// output = reserve_out - (reserve_in * reserve_out) / (reserve_in + amount_in)
/// ```
///
/// A buy instantiates this with (quote, token) reserves, a sell with
/// (token, quote) reserves.
pub open spec fn swap_output(amount_in: int, reserve_in: int, reserve_out: int) -> int {
    reserve_out - (reserve_in * reserve_out) / (reserve_in + amount_in)
}

/// Law: the quoted output never exceeds the outgoing reserves, and a
/// nonzero input into a pool with nonzero outgoing reserves always buys
/// at least one unit.
pub proof fn lemma_swap_output_bounds(amount_in: int, reserve_in: int, reserve_out: int)
    requires
        0 < reserve_in,
        0 <= amount_in,
        0 <= reserve_out,
    ensures
        0 <= swap_output(amount_in, reserve_in, reserve_out) <= reserve_out,
        0 < amount_in && 0 < reserve_out ==> 0 < swap_output(amount_in, reserve_in, reserve_out),
{
    let d = reserve_in + amount_in;
    let k = reserve_in * reserve_out;
    lemma_mul_nonnegative(reserve_in, reserve_out);
    lemma_div_pos_is_pos(k, d);
    lemma_mul_inequality(reserve_in, d, reserve_out);
    lemma_multiply_divide_le(k, d, reserve_out);
    if 0 < amount_in && 0 < reserve_out {
        lemma_mul_strict_inequality(reserve_in, d, reserve_out);
        lemma_multiply_divide_lt(k, d, reserve_out);
    }
}

/// Law: no single finite trade can fully drain the outgoing side of the
/// pool, as long as the pool is deep enough that the product of the
/// reserves covers the post-trade incoming reserves. (In a pool as shallow
/// as one unit by one unit, the flooring of the division can hand out the
/// last unit.)
pub proof fn lemma_swap_never_drains(amount_in: int, reserve_in: int, reserve_out: int)
    requires
        0 < reserve_in,
        0 < amount_in,
        0 < reserve_out,
        reserve_in + amount_in <= reserve_in * reserve_out,
    ensures
        swap_output(amount_in, reserve_in, reserve_out) < reserve_out,
{
    let d = reserve_in + amount_in;
    let k = reserve_in * reserve_out;
    lemma_div_by_self(d);
    lemma_div_is_ordered(d, k, d);
}

/// Law: a trade moves the constant product `reserve_in * reserve_out`
/// only downward, and by less than one unit of the division's flooring —
/// strictly less than the post-trade incoming reserves.
pub proof fn lemma_swap_preserves_product(amount_in: int, reserve_in: int, reserve_out: int)
    requires
        0 < reserve_in,
        0 <= amount_in,
        0 <= reserve_out,
    ensures
        ({
            let new_in = reserve_in + amount_in;
            let new_out = reserve_out - swap_output(amount_in, reserve_in, reserve_out);
            new_in * new_out <= reserve_in * reserve_out
                && reserve_in * reserve_out - new_in * new_out < new_in
        }),
{
    let d = reserve_in + amount_in;
    let k = reserve_in * reserve_out;
    lemma_fundamental_div_mod(k, d);
    lemma_mod_division_less_than_divisor(k, d);
}

/// Law: the quoted output is monotone in the input amount — a larger
/// trade never buys less.
pub proof fn lemma_swap_output_monotone(
    amount1: int,
    amount2: int,
    reserve_in: int,
    reserve_out: int,
)
    requires
        0 < reserve_in,
        0 <= amount1 <= amount2,
        0 <= reserve_out,
    ensures
        swap_output(amount1, reserve_in, reserve_out) <= swap_output(
            amount2,
            reserve_in,
            reserve_out,
        ),
{
    lemma_mul_nonnegative(reserve_in, reserve_out);
    lemma_div_is_ordered_by_denominator(
        reserve_in * reserve_out,
        reserve_in + amount1,
        reserve_in + amount2,
    );
}

/// Law: the quoted output is strictly monotone in the input amount while
/// the pool is deep enough — whenever the product of the reserves covers
/// the square of the post-trade incoming reserves, each extra unit of
/// input buys at least one extra unit of output.
pub proof fn lemma_swap_output_strictly_monotone(
    amount1: int,
    amount2: int,
    reserve_in: int,
    reserve_out: int,
)
    requires
        0 < reserve_in,
        0 <= amount1 < amount2,
        0 < reserve_out,
        (reserve_in + amount2) * (reserve_in + amount2) <= reserve_in * reserve_out,
    ensures
        swap_output(amount1, reserve_in, reserve_out) < swap_output(
            amount2,
            reserve_in,
            reserve_out,
        ),
{
    let a = reserve_in + amount1;
    let b = reserve_in + amount2;
    let k = reserve_in * reserve_out;
    let q = k / b;
    let r = k % b;
    lemma_fundamental_div_mod(k, b);
    lemma_mod_division_less_than_divisor(k, b);
    lemma_div_is_ordered(b * b, k, b);
    lemma_div_multiples_vanish(b, b);
    assert(b <= q);
    assert(a * (q + 1) <= k) by (nonlinear_arith)
        requires
            k == b * q + r,
            0 <= r,
            0 < a < b,
            a < q,
    ;
    lemma_div_is_ordered(a * (q + 1), k, a);
    lemma_div_multiples_vanish(q + 1, a);
}

/// Computes the shared body of the two quote functions: the
/// constant-product output for `amount_in` against the given reserves,
/// with all intermediate arithmetic in 128 bits so that the product of two
/// 64-bit reserves is exact.
///
/// The only failure is a zero divisor — both the incoming reserves and the
/// input amount zero.
fn swap_amount_out(amount_in: u64, reserve_in: u64, reserve_out: u64) -> (r: Result<
    u64,
    ErrorCode,
>)
    ensures
        reserve_in + amount_in == 0 ==> r == Err::<u64, ErrorCode>(ErrorCode::Overflow),
        0 < reserve_in + amount_in ==> r == Ok::<u64, ErrorCode>(
            swap_output(amount_in as int, reserve_in as int, reserve_out as int) as u64,
        ),
        0 < reserve_in + amount_in ==> 0 <= swap_output(
            amount_in as int,
            reserve_in as int,
            reserve_out as int,
        ) <= reserve_out,
{
    let amount_in_wide = amount_in as u128;
    let reserve_in_wide = reserve_in as u128;
    let reserve_out_wide = reserve_out as u128;
    let new_reserve_in = reserve_in_wide + amount_in_wide;
    if new_reserve_in == 0 {
        return Err(ErrorCode::Overflow);
    }
    proof {
        lemma_mul_upper_bound(
            reserve_in as int,
            u64::MAX as int,
            reserve_out as int,
            u64::MAX as int,
        );
    }
    let k = reserve_in_wide * reserve_out_wide;
    let new_reserve_out = k / new_reserve_in;
    proof {
        lemma_mul_inequality(
            reserve_in as int,
            reserve_in as int + amount_in as int,
            reserve_out as int,
        );
        lemma_multiply_divide_le(k as int, new_reserve_in as int, reserve_out as int);
        lemma_mul_nonnegative(reserve_in as int, reserve_out as int);
        lemma_div_pos_is_pos(k as int, new_reserve_in as int);
    }
    let amount_out = reserve_out_wide - new_reserve_out;
    Ok(amount_out as u64)
}

/// Quotes a buy: spending `sol_amount` of the quote asset against the
/// given effective reserves yields this many base-asset units.
///
/// The result is exactly `swap_output(sol_amount, sol_reserves,
/// token_reserves)`; the call fails only when both `sol_reserves` and
/// `sol_amount` are zero, and the output never exceeds `token_reserves`.
pub fn calculate_buy_amount(sol_amount: u64, sol_reserves: u64, token_reserves: u64) -> (r: Result<
    u64,
    ErrorCode,
>)
    ensures
        sol_reserves + sol_amount == 0 ==> r == Err::<u64, ErrorCode>(ErrorCode::Overflow),
        0 < sol_reserves + sol_amount ==> r == Ok::<u64, ErrorCode>(
            swap_output(sol_amount as int, sol_reserves as int, token_reserves as int) as u64,
        ),
        0 < sol_reserves + sol_amount ==> 0 <= swap_output(
            sol_amount as int,
            sol_reserves as int,
            token_reserves as int,
        ) <= token_reserves,
{
    swap_amount_out(sol_amount, sol_reserves, token_reserves)
}

/// Quotes a sell: spending `token_amount` of the base asset against the
/// given effective reserves yields this many quote-asset units, before the
/// fee is taken.
///
/// The result is exactly `swap_output(token_amount, token_reserves,
/// sol_reserves)`; the call fails only when both `token_reserves` and
/// `token_amount` are zero, and the output never exceeds `sol_reserves`.
pub fn calculate_sell_amount(token_amount: u64, token_reserves: u64, sol_reserves: u64) -> (r:
    Result<u64, ErrorCode>)
    ensures
        token_reserves + token_amount == 0 ==> r == Err::<u64, ErrorCode>(ErrorCode::Overflow),
        0 < token_reserves + token_amount ==> r == Ok::<u64, ErrorCode>(
            swap_output(token_amount as int, token_reserves as int, sol_reserves as int) as u64,
        ),
        0 < token_reserves + token_amount ==> 0 <= swap_output(
            token_amount as int,
            token_reserves as int,
            sol_reserves as int,
        ) <= sol_reserves,
{
    swap_amount_out(token_amount, token_reserves, sol_reserves)
}

} // verus!
