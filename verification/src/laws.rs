use vstd::prelude::*;
use vstd::arithmetic::div_mod::lemma_div_is_ordered;
use vstd::arithmetic::div_mod::lemma_div_multiples_vanish;
use vstd::arithmetic::div_mod::lemma_fundamental_div_mod;
use vstd::arithmetic::div_mod::lemma_mod_division_less_than_divisor;
use vstd::arithmetic::mul::lemma_mul_inequality;
use vstd::arithmetic::mul::lemma_mul_is_commutative;
use crate::buy::buy_error;
use crate::buy::buy_token_output;
use crate::constants::FEE_BASIS_POINTS;
use crate::errors::ErrorCode;
use crate::fees::lemma_fee_net_split;
use crate::fees::spec_fee;
use crate::fees::spec_net;
use crate::pricing::swap_output;
use crate::state::BondingCurve;
use crate::state::GlobalConfig;

verus! {

/// Law: a round trip never profits the trader. Buying tokens with a net
/// quote amount and immediately selling exactly those tokens back yields,
/// after the sell-side fee, at most the net amount spent: fees and integer
/// flooring favor the pool, never the trader.
///
/// The law asks for a pool whose token side covers its post-trade quote
/// side and for a net amount of at least 99 quote units, so that the fee —
/// at least one percent of the gross output — covers the single unit the
/// flooring of the buy division can hand the trader. (In a pool of 10 by
/// 10, a buy of 5 floors hard enough that the gross output of the round
/// trip is 6.)
pub proof fn lemma_round_trip_favors_pool(net_sol_in: int, sol_reserves: int, token_reserves: int)
    requires
        0 < sol_reserves,
        99 <= net_sol_in,
        sol_reserves + net_sol_in <= token_reserves,
    ensures
        ({
            let tokens_out = swap_output(net_sol_in, sol_reserves, token_reserves);
            let sol_back = swap_output(
                tokens_out,
                token_reserves - tokens_out,
                sol_reserves + net_sol_in,
            );
            spec_net(sol_back, FEE_BASIS_POINTS as int) <= net_sol_in
        }),
{
    let s = sol_reserves;
    let x = net_sol_in;
    let t = token_reserves;
    let d = s + x;
    let k = s * t;
    let post_buy_tokens = k / d;
    let remainder = k % d;
    lemma_fundamental_div_mod(k, d);
    lemma_mod_division_less_than_divisor(k, d);
    // The buy leaves `post_buy_tokens` on the token side, and the sell of
    // `t - post_buy_tokens` divides `post_buy_tokens * d` by `t`.
    let m = (post_buy_tokens * d) / t;
    lemma_mul_is_commutative(post_buy_tokens, d);
    // Lower bound: the product lost to the buy's flooring is below `d <= t`,
    // so the sell's division lands at `s - 1` or above.
    assert((s - 1) * t <= d * post_buy_tokens) by (nonlinear_arith)
        requires
            s * t == d * post_buy_tokens + remainder,
            remainder < d,
            d <= t,
    ;
    lemma_div_is_ordered((s - 1) * t, post_buy_tokens * d, t);
    lemma_div_multiples_vanish(s - 1, t);
    lemma_mul_is_commutative(s - 1, t);
    // Upper bound: the product never grows, so the sell's division lands
    // at `s` or below.
    lemma_div_is_ordered(post_buy_tokens * d, s * t, t);
    lemma_div_multiples_vanish(s, t);
    lemma_mul_is_commutative(s, t);
    let gross = d - m;
    assert(x <= gross <= x + 1);
    lemma_fee_net_split(gross, FEE_BASIS_POINTS as int);
    if gross == x + 1 {
        // The gross output exceeds the net input by the one flooring unit,
        // but then it is at least 100, so the one-percent fee takes back
        // at least one unit.
        lemma_mul_inequality(100, gross, 100);
        lemma_div_is_ordered(10000, gross * 100, 10000);
        assert(spec_fee(gross, FEE_BASIS_POINTS as int) >= 1);
    }
}

/// Law: the slippage bound is exact. Whenever a buy would go through with
/// no bound at all, setting the bound exactly to the computed token output
/// still goes through, and setting it one unit above fails with
/// `SlippageExceeded`.
pub proof fn lemma_buy_slippage_boundary(curve: BondingCurve, sol_amount: u64)
    requires
        buy_error(curve, sol_amount, 0) is None,
        buy_token_output(curve, sol_amount as int) < u64::MAX,
    ensures
        buy_error(curve, sol_amount, buy_token_output(curve, sol_amount as int) as u64) is None,
        buy_error(curve, sol_amount, (buy_token_output(curve, sol_amount as int) + 1) as u64)
            == Some(ErrorCode::SlippageExceeded),
{
}

/// Law: the registry never hands out an index twice. Two creations drawn
/// one after the other from the registry — each taking the counter it
/// observes and moving the counter forward by one, as `next_index`
/// guarantees — carry consecutive, and so distinct, indices.
pub proof fn lemma_successive_indices_distinct(
    registry_before: GlobalConfig,
    registry_between: GlobalConfig,
    first: BondingCurve,
    second: BondingCurve,
)
    requires
        first.index == registry_before.total_curves,
        registry_between.total_curves == registry_before.total_curves + 1,
        second.index == registry_between.total_curves,
    ensures
        second.index == first.index + 1,
        first.index != second.index,
{
}

} // verus!
