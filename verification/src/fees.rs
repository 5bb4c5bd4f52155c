use vstd::prelude::*;
use vstd::arithmetic::div_mod::lemma_div_is_ordered;
use vstd::arithmetic::div_mod::lemma_div_multiples_vanish;
use vstd::arithmetic::div_mod::lemma_div_pos_is_pos;
use vstd::arithmetic::mul::lemma_mul_inequality;
use vstd::arithmetic::mul::lemma_mul_is_commutative;
use vstd::arithmetic::mul::lemma_mul_nonnegative;
use vstd::arithmetic::mul::lemma_mul_upper_bound;
use crate::errors::ErrorCode;

verus! {

/// The fee taken out of a gross quote amount at `rate_bps` basis points,
/// rounded down.
pub open spec fn spec_fee(gross: int, rate_bps: int) -> int {
    gross * rate_bps / 10000
}

/// What is left of a gross quote amount once the fee has been taken.
pub open spec fn spec_net(gross: int, rate_bps: int) -> int {
    gross - spec_fee(gross, rate_bps)
}

/// Splits a gross quote amount into the protocol fee and the net amount.
///
/// The multiplication is carried out in 128 bits, so it is exact for every
/// `u64` input. The split fails only when the fee would exceed the gross
/// amount, which cannot happen for rates of at most 10000 basis points.
pub fn calculate_fee(gross: u64, rate_bps: u16) -> (r: Result<(u64, u64), ErrorCode>)
    ensures
        spec_fee(gross as int, rate_bps as int) <= gross ==> r == Ok::<(u64, u64), ErrorCode>((
            spec_fee(gross as int, rate_bps as int) as u64,
            spec_net(gross as int, rate_bps as int) as u64,
        )),
        spec_fee(gross as int, rate_bps as int) > gross ==> r == Err::<(u64, u64), ErrorCode>(
            ErrorCode::Overflow,
        ),
{
    proof {
        lemma_mul_nonnegative(gross as int, rate_bps as int);
        lemma_mul_upper_bound(gross as int, u64::MAX as int, rate_bps as int, u16::MAX as int);
        lemma_div_pos_is_pos(gross as int * rate_bps as int, 10000);
    }
    let fee_wide: u128 = gross as u128 * rate_bps as u128 / 10000;
    if fee_wide > gross as u128 {
        Err(ErrorCode::Overflow)
    } else {
        let fee: u64 = fee_wide as u64;
        Ok((fee, gross - fee))
    }
}

/// Law: for any nonnegative gross amount and any rate of at most 10000
/// basis points, the fee is between zero and the gross amount, and fee and
/// net add back up to the gross amount exactly.
pub proof fn lemma_fee_net_split(gross: int, rate_bps: int)
    requires
        0 <= gross,
        0 <= rate_bps <= 10000,
    ensures
        0 <= spec_fee(gross, rate_bps) <= gross,
        spec_fee(gross, rate_bps) + spec_net(gross, rate_bps) == gross,
{
    lemma_mul_nonnegative(gross, rate_bps);
    lemma_div_pos_is_pos(gross * rate_bps, 10000);
    lemma_mul_inequality(rate_bps, 10000, gross);
    lemma_mul_is_commutative(gross, rate_bps);
    lemma_mul_is_commutative(10000, gross);
    lemma_div_is_ordered(gross * rate_bps, 10000 * gross, 10000);
    lemma_div_multiples_vanish(gross, 10000);
}

} // verus!
