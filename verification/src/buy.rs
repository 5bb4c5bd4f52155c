use vstd::prelude::*;
use crate::constants::FEE_BASIS_POINTS;
use crate::errors::ErrorCode;
use crate::events::TradeEvent;
use crate::events::TradeOutcome;
use crate::fees::calculate_fee;
use crate::fees::lemma_fee_net_split;
use crate::fees::spec_fee;
use crate::fees::spec_net;
use crate::pricing::calculate_buy_amount;
use crate::pricing::lemma_swap_output_bounds;
use crate::pricing::lemma_swap_preserves_product;
use crate::pricing::swap_output;
use crate::state::BondingCurve;
use crate::state::Pubkey;

verus! {

/// The base-asset amount a buy of `sol_amount` gross quote units yields:
/// the constant-product output of the net amount (after the protocol fee)
/// against the effective reserves.
pub open spec fn buy_token_output(curve: BondingCurve, sol_amount: int) -> int {
    swap_output(
        spec_net(sol_amount, FEE_BASIS_POINTS as int),
        curve.eff_sol(),
        curve.eff_token(),
    )
}

/// The error a buy of `sol_amount` gross quote units under the slippage
/// bound `min_token_amount` fails with, if any — in the order the checks
/// are made: curve state, input amount, representable effective reserves,
/// slippage, then representable post-trade reserves.
pub open spec fn buy_error(
    curve: BondingCurve,
    sol_amount: u64,
    min_token_amount: u64,
) -> Option<ErrorCode> {
    if curve.complete {
        Some(ErrorCode::CurveComplete)
    } else if sol_amount == 0 {
        Some(ErrorCode::InvalidAmount)
    } else if curve.eff_sol() > u64::MAX {
        Some(ErrorCode::Overflow)
    } else if buy_token_output(curve, sol_amount as int) < min_token_amount {
        Some(ErrorCode::SlippageExceeded)
    } else if curve.eff_sol() + spec_net(sol_amount as int, FEE_BASIS_POINTS as int) > u64::MAX {
        Some(ErrorCode::Overflow)
    } else {
        None
    }
}

/// The curve state after a successful buy: the net quote amount settles
/// into the real quote reserves, and the bought tokens leave custody.
pub open spec fn buy_post_state(curve: BondingCurve, sol_amount: int) -> BondingCurve {
    BondingCurve {
        real_sol_reserves: (curve.real_sol_reserves + spec_net(
            sol_amount,
            FEE_BASIS_POINTS as int,
        )) as u64,
        real_token_reserves: (curve.real_token_reserves + buy_token_output(
            curve,
            sol_amount,
        )) as u64,
        ..curve
    }
}

/// What a successful buy of `sol_amount` gross quote units hands back:
/// the token output, the fee split of the quote amount, and the
/// notification record with the post-trade effective reserves.
pub open spec fn buy_outcome(curve: BondingCurve, user: Pubkey, sol_amount: u64) -> TradeOutcome {
    let post = buy_post_state(curve, sol_amount as int);
    TradeOutcome {
        token_amount: buy_token_output(curve, sol_amount as int) as u64,
        sol_gross: sol_amount,
        sol_fee: spec_fee(sol_amount as int, FEE_BASIS_POINTS as int) as u64,
        sol_net: spec_net(sol_amount as int, FEE_BASIS_POINTS as int) as u64,
        event: TradeEvent {
            mint: curve.mint,
            user: user,
            sol_amount: sol_amount,
            token_amount: buy_token_output(curve, sol_amount as int) as u64,
            is_buy: true,
            virtual_sol_reserves: post.eff_sol() as u64,
            virtual_token_reserves: post.eff_token() as u64,
        },
    }
}

/// A buy: the trader spends `sol_amount` gross quote units; the protocol
/// fee is taken out of them, the net amount is priced through the
/// constant-product formula, and the trade commits only if it yields at
/// least `min_token_amount` base-asset units.
///
/// On any failure the curve is left exactly as it was, with the error that
/// `buy_error` names. On success the curve moves to `buy_post_state`, the
/// result carries the amounts the transfer layer must move, and the
/// effective-reserves product does not grow — it shrinks by less than the
/// flooring of one division step.
pub fn buy_handler(
    curve: &mut BondingCurve,
    user: Pubkey,
    sol_amount: u64,
    min_token_amount: u64,
) -> (r: Result<TradeOutcome, ErrorCode>)
    requires
        old(curve).wf(),
    ensures
        final(curve).wf(),
        old(curve).complete ==> r == Err::<TradeOutcome, ErrorCode>(ErrorCode::CurveComplete)
            && *final(curve) == *old(curve),
        buy_error(*old(curve), sol_amount, min_token_amount) matches Some(e) ==> r == Err::<
            TradeOutcome,
            ErrorCode,
        >(e) && *final(curve) == *old(curve),
        buy_error(*old(curve), sol_amount, min_token_amount) is None ==> r == Ok::<
            TradeOutcome,
            ErrorCode,
        >(buy_outcome(*old(curve), user, sol_amount)) && *final(curve) == buy_post_state(
            *old(curve),
            sol_amount as int,
        ),
        r matches Ok(_) ==> final(curve).eff_product() <= old(curve).eff_product()
            && old(curve).eff_product() - final(curve).eff_product() < final(curve).eff_sol(),
{
    if curve.complete {
        return Err(ErrorCode::CurveComplete);
    }
    if sol_amount == 0 {
        return Err(ErrorCode::InvalidAmount);
    }
    if curve.real_sol_reserves > u64::MAX - curve.virtual_sol_reserves {
        return Err(ErrorCode::Overflow);
    }
    let eff_sol = curve.virtual_sol_reserves + curve.real_sol_reserves;
    let eff_token = curve.virtual_token_reserves - curve.real_token_reserves;
    proof {
        lemma_fee_net_split(sol_amount as int, FEE_BASIS_POINTS as int);
    }
    let (fee_amount, net_amount) = match calculate_fee(sol_amount, FEE_BASIS_POINTS) {
        Ok(split) => split,
        Err(e) => {
            return Err(e);
        },
    };
    let token_amount = match calculate_buy_amount(net_amount, eff_sol, eff_token) {
        Ok(t) => t,
        Err(e) => {
            return Err(e);
        },
    };
    if token_amount < min_token_amount {
        return Err(ErrorCode::SlippageExceeded);
    }
    if net_amount > u64::MAX - eff_sol {
        return Err(ErrorCode::Overflow);
    }
    proof {
        lemma_swap_output_bounds(net_amount as int, eff_sol as int, eff_token as int);
    }
    curve.real_sol_reserves = curve.real_sol_reserves + net_amount;
    curve.real_token_reserves = curve.real_token_reserves + token_amount;
    let event = TradeEvent {
        mint: curve.mint,
        user,
        sol_amount,
        token_amount,
        is_buy: true,
        virtual_sol_reserves: curve.virtual_sol_reserves + curve.real_sol_reserves,
        virtual_token_reserves: curve.virtual_token_reserves - curve.real_token_reserves,
    };
    proof {
        lemma_swap_preserves_product(
            net_amount as int,
            old(curve).eff_sol(),
            old(curve).eff_token(),
        );
    }
    Ok(
        TradeOutcome {
            token_amount,
            sol_gross: sol_amount,
            sol_fee: fee_amount,
            sol_net: net_amount,
            event,
        },
    )
}

} // verus!
