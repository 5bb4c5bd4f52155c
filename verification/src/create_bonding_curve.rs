use vstd::prelude::*;
use crate::errors::ErrorCode;
use crate::state::BondingCurve;
use crate::state::GlobalConfig;
use crate::state::Pubkey;

verus! {

/// The caller-supplied shape of a new curve.
#[derive(Clone, Copy, PartialEq, Eq, Debug)]
pub struct CreateBondingCurveParams {
    /// Base-asset units the creator places under curve custody.
    pub initial_supply: u64,
    /// Nominal token-side liquidity of the pricing curve.
    pub virtual_token_reserves: u64,
    /// Nominal quote-side liquidity of the pricing curve.
    pub virtual_sol_reserves: u64,
}

/// The error a curve creation fails with, if any, in the order the checks
/// are made: every parameter strictly positive, the virtual token reserves
/// strictly above the initial supply (so the nominal price starts strictly
/// positive and the effective token reserves can never underflow on the
/// first trade), and the creator holding exactly the initial supply.
pub open spec fn create_error(
    params: CreateBondingCurveParams,
    creator_token_balance: u64,
) -> Option<ErrorCode> {
    if params.initial_supply == 0 {
        Some(ErrorCode::InvalidAmount)
    } else if params.virtual_token_reserves == 0 {
        Some(ErrorCode::InvalidAmount)
    } else if params.virtual_sol_reserves == 0 {
        Some(ErrorCode::InvalidAmount)
    } else if params.virtual_token_reserves <= params.initial_supply {
        Some(ErrorCode::VirtualReservesTooSmall)
    } else if creator_token_balance != params.initial_supply {
        Some(ErrorCode::InsufficientBalance)
    } else {
        None
    }
}

/// The record a successful creation opens: virgin real reserves, trading
/// enabled, and the index the registry hands out.
pub open spec fn created_curve(
    params: CreateBondingCurveParams,
    mint: Pubkey,
    creator: Pubkey,
    index: u64,
) -> BondingCurve {
    BondingCurve {
        mint: mint,
        creator: creator,
        virtual_token_reserves: params.virtual_token_reserves,
        virtual_sol_reserves: params.virtual_sol_reserves,
        real_token_reserves: 0,
        real_sol_reserves: 0,
        token_total_supply: params.initial_supply,
        complete: false,
        index: index,
    }
}

/// Opens a curve: validates the parameters, checks that the creator holds
/// exactly the initial supply, and on success builds the initial record
/// and draws its index from the registry — incrementing the registry
/// counter exactly once.
///
/// On failure the registry is left untouched. Moving the initial supply
/// into custody and revoking the mint authority are the transfer layer's
/// business; `verify_custody_balance` checks the balance it reports back.
pub fn create_bonding_curve_handler(
    global_config: &mut GlobalConfig,
    mint: Pubkey,
    creator: Pubkey,
    creator_token_balance: u64,
    params: CreateBondingCurveParams,
) -> (r: Result<BondingCurve, ErrorCode>)
    requires
        old(global_config).total_curves < u64::MAX,
    ensures
        create_error(params, creator_token_balance) matches Some(e) ==> r == Err::<
            BondingCurve,
            ErrorCode,
        >(e) && *final(global_config) == *old(global_config),
        create_error(params, creator_token_balance) is None ==> r == Ok::<
            BondingCurve,
            ErrorCode,
        >(created_curve(params, mint, creator, old(global_config).total_curves))
            && final(global_config).total_curves == old(global_config).total_curves + 1,
        final(global_config).authority == old(global_config).authority,
        final(global_config).fee_recipient == old(global_config).fee_recipient,
        r matches Ok(curve) ==> curve.wf() && !curve.complete
            && curve.index == old(global_config).total_curves,
{
    if params.initial_supply == 0 {
        return Err(ErrorCode::InvalidAmount);
    }
    if params.virtual_token_reserves == 0 {
        return Err(ErrorCode::InvalidAmount);
    }
    if params.virtual_sol_reserves == 0 {
        return Err(ErrorCode::InvalidAmount);
    }
    if params.virtual_token_reserves <= params.initial_supply {
        return Err(ErrorCode::VirtualReservesTooSmall);
    }
    if creator_token_balance != params.initial_supply {
        return Err(ErrorCode::InsufficientBalance);
    }
    let index = global_config.next_index();
    Ok(
        BondingCurve {
            mint,
            creator,
            virtual_token_reserves: params.virtual_token_reserves,
            virtual_sol_reserves: params.virtual_sol_reserves,
            real_token_reserves: 0,
            real_sol_reserves: 0,
            token_total_supply: params.initial_supply,
            complete: false,
            index,
        },
    )
}

/// Checks the custody balance the transfer layer reports once the initial
/// supply has been moved: creation stands only when exactly the initial
/// supply arrived under curve custody.
pub fn verify_custody_balance(custody_balance: u64, initial_supply: u64) -> (r: Result<
    (),
    ErrorCode,
>)
    ensures
        custody_balance == initial_supply ==> r == Ok::<(), ErrorCode>(()),
        custody_balance != initial_supply ==> r == Err::<(), ErrorCode>(ErrorCode::InvalidSupply),
{
    if custody_balance == initial_supply {
        Ok(())
    } else {
        Err(ErrorCode::InvalidSupply)
    }
}

} // verus!
