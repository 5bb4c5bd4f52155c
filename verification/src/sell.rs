use vstd::prelude::*;
use vstd::arithmetic::mul::lemma_mul_is_commutative;
use crate::constants::FEE_BASIS_POINTS;
use crate::errors::ErrorCode;
use crate::events::TradeEvent;
use crate::events::TradeOutcome;
use crate::fees::calculate_fee;
use crate::fees::lemma_fee_net_split;
use crate::fees::spec_fee;
use crate::fees::spec_net;
use crate::pricing::calculate_sell_amount;
use crate::pricing::lemma_swap_preserves_product;
use crate::pricing::swap_output;
use crate::state::BondingCurve;
use crate::state::Pubkey;

verus! {

/// The gross quote amount a sell of `token_amount` base-asset units
/// yields, before the protocol fee is taken: the constant-product output
/// with the roles of the reserves swapped.
pub open spec fn sell_sol_output(curve: BondingCurve, token_amount: int) -> int {
    swap_output(token_amount, curve.eff_token(), curve.eff_sol())
}

/// The error a sell of `token_amount` base-asset units under the slippage
/// bound `min_sol_amount` fails with, if any — in the order the checks are
/// made: curve state, input amount, representable effective reserves,
/// slippage, then the two reserve floors. A sell can only pay out of the
/// quote units actually settled into the curve, and can only take back
/// tokens that are actually out of custody.
pub open spec fn sell_error(
    curve: BondingCurve,
    token_amount: u64,
    min_sol_amount: u64,
) -> Option<ErrorCode> {
    if curve.complete {
        Some(ErrorCode::CurveComplete)
    } else if token_amount == 0 {
        Some(ErrorCode::InvalidAmount)
    } else if curve.eff_sol() > u64::MAX {
        Some(ErrorCode::Overflow)
    } else if spec_net(sell_sol_output(curve, token_amount as int), FEE_BASIS_POINTS as int)
        < min_sol_amount {
        Some(ErrorCode::SlippageExceeded)
    } else if sell_sol_output(curve, token_amount as int) > curve.real_sol_reserves {
        Some(ErrorCode::InsufficientReserves)
    } else if token_amount > curve.real_token_reserves {
        Some(ErrorCode::InsufficientReserves)
    } else {
        None
    }
}

/// The curve state after a successful sell: the gross quote output leaves
/// the real quote reserves, and the sold tokens return to custody.
pub open spec fn sell_post_state(curve: BondingCurve, token_amount: int) -> BondingCurve {
    BondingCurve {
        real_sol_reserves: (curve.real_sol_reserves - sell_sol_output(
            curve,
            token_amount,
        )) as u64,
        real_token_reserves: (curve.real_token_reserves - token_amount) as u64,
        ..curve
    }
}

/// What a successful sell of `token_amount` base-asset units hands back:
/// the fee split of the gross quote output, and the notification record
/// with the post-trade effective reserves.
pub open spec fn sell_outcome(curve: BondingCurve, user: Pubkey, token_amount: u64) -> TradeOutcome {
    let gross = sell_sol_output(curve, token_amount as int);
    let post = sell_post_state(curve, token_amount as int);
    TradeOutcome {
        token_amount: token_amount,
        sol_gross: gross as u64,
        sol_fee: spec_fee(gross, FEE_BASIS_POINTS as int) as u64,
        sol_net: spec_net(gross, FEE_BASIS_POINTS as int) as u64,
        event: TradeEvent {
            mint: curve.mint,
            user: user,
            sol_amount: gross as u64,
            token_amount: token_amount,
            is_buy: false,
            virtual_sol_reserves: post.eff_sol() as u64,
            virtual_token_reserves: post.eff_token() as u64,
        },
    }
}

/// A sell: the trader returns `token_amount` base-asset units; the gross
/// quote output is priced through the constant-product formula, the
/// protocol fee is taken out of that output, and the trade commits only if
/// the net output reaches `min_sol_amount`.
///
/// On any failure the curve is left exactly as it was, with the error that
/// `sell_error` names. On success the curve moves to `sell_post_state`,
/// the result carries the amounts the transfer layer must move, and the
/// effective-reserves product does not grow — it shrinks by less than the
/// flooring of one division step.
pub fn sell_handler(
    curve: &mut BondingCurve,
    user: Pubkey,
    token_amount: u64,
    min_sol_amount: u64,
) -> (r: Result<TradeOutcome, ErrorCode>)
    requires
        old(curve).wf(),
    ensures
        final(curve).wf(),
        old(curve).complete ==> r == Err::<TradeOutcome, ErrorCode>(ErrorCode::CurveComplete)
            && *final(curve) == *old(curve),
        sell_error(*old(curve), token_amount, min_sol_amount) matches Some(e) ==> r == Err::<
            TradeOutcome,
            ErrorCode,
        >(e) && *final(curve) == *old(curve),
        sell_error(*old(curve), token_amount, min_sol_amount) is None ==> r == Ok::<
            TradeOutcome,
            ErrorCode,
        >(sell_outcome(*old(curve), user, token_amount)) && *final(curve) == sell_post_state(
            *old(curve),
            token_amount as int,
        ),
        r matches Ok(_) ==> final(curve).eff_product() <= old(curve).eff_product()
            && old(curve).eff_product() - final(curve).eff_product() < final(curve).eff_token(),
{
    if curve.complete {
        return Err(ErrorCode::CurveComplete);
    }
    if token_amount == 0 {
        return Err(ErrorCode::InvalidAmount);
    }
    if curve.real_sol_reserves > u64::MAX - curve.virtual_sol_reserves {
        return Err(ErrorCode::Overflow);
    }
    let eff_sol = curve.virtual_sol_reserves + curve.real_sol_reserves;
    let eff_token = curve.virtual_token_reserves - curve.real_token_reserves;
    let sol_amount = match calculate_sell_amount(token_amount, eff_token, eff_sol) {
        Ok(s) => s,
        Err(e) => {
            return Err(e);
        },
    };
    proof {
        lemma_fee_net_split(sol_amount as int, FEE_BASIS_POINTS as int);
    }
    let (fee_amount, net_amount) = match calculate_fee(sol_amount, FEE_BASIS_POINTS) {
        Ok(split) => split,
        Err(e) => {
            return Err(e);
        },
    };
    if net_amount < min_sol_amount {
        return Err(ErrorCode::SlippageExceeded);
    }
    if sol_amount > curve.real_sol_reserves {
        return Err(ErrorCode::InsufficientReserves);
    }
    if token_amount > curve.real_token_reserves {
        return Err(ErrorCode::InsufficientReserves);
    }
    curve.real_sol_reserves = curve.real_sol_reserves - sol_amount;
    curve.real_token_reserves = curve.real_token_reserves - token_amount;
    let event = TradeEvent {
        mint: curve.mint,
        user,
        sol_amount,
        token_amount,
        is_buy: false,
        virtual_sol_reserves: curve.virtual_sol_reserves + curve.real_sol_reserves,
        virtual_token_reserves: curve.virtual_token_reserves - curve.real_token_reserves,
    };
    proof {
        lemma_swap_preserves_product(
            token_amount as int,
            old(curve).eff_token(),
            old(curve).eff_sol(),
        );
        lemma_mul_is_commutative(old(curve).eff_sol(), old(curve).eff_token());
        lemma_mul_is_commutative(
            old(curve).eff_sol() - sol_amount,
            old(curve).eff_token() + token_amount,
        );
    }
    Ok(
        TradeOutcome {
            token_amount,
            sol_gross: sol_amount,
            sol_fee: fee_amount,
            sol_net: net_amount,
            event,
        },
    )
}

} // verus!
