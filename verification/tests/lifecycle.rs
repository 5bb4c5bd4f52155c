use hook_amm::buy::buy_handler;
use hook_amm::create_bonding_curve::create_bonding_curve_handler;
use hook_amm::create_bonding_curve::verify_custody_balance;
use hook_amm::create_bonding_curve::CreateBondingCurveParams;
use hook_amm::errors::ErrorCode;
use hook_amm::sell::sell_handler;
use hook_amm::state::initialize_global_config_handler;
use hook_amm::state::BondingCurve;
use hook_amm::state::Pubkey;

const AUTHORITY: Pubkey = [1u8; 32];
const FEE_RECIPIENT: Pubkey = [2u8; 32];
const MINT: Pubkey = [3u8; 32];
const CREATOR: Pubkey = [4u8; 32];
const TRADER: Pubkey = [5u8; 32];

fn sample_params() -> CreateBondingCurveParams {
    CreateBondingCurveParams {
        initial_supply: 1000,
        virtual_token_reserves: 2000,
        virtual_sol_reserves: 1000,
    }
}

fn open_sample_curve() -> BondingCurve {
    let mut config = initialize_global_config_handler(AUTHORITY, FEE_RECIPIENT);
    create_bonding_curve_handler(&mut config, MINT, CREATOR, 1000, sample_params()).unwrap()
}

#[test]
fn config_starts_empty() {
    let config = initialize_global_config_handler(AUTHORITY, FEE_RECIPIENT);
    assert_eq!(config.authority, AUTHORITY);
    assert_eq!(config.fee_recipient, FEE_RECIPIENT);
    assert_eq!(config.total_curves, 0);
}

#[test]
fn creations_get_consecutive_indices() {
    let mut config = initialize_global_config_handler(AUTHORITY, FEE_RECIPIENT);
    let a = create_bonding_curve_handler(&mut config, [10u8; 32], CREATOR, 1000, sample_params())
        .unwrap();
    let b = create_bonding_curve_handler(&mut config, [11u8; 32], CREATOR, 1000, sample_params())
        .unwrap();
    let c = create_bonding_curve_handler(&mut config, [12u8; 32], CREATOR, 1000, sample_params())
        .unwrap();
    assert_eq!(a.index, 0);
    assert_eq!(b.index, 1);
    assert_eq!(c.index, 2);
    assert!(a.index != b.index && b.index != c.index && a.index != c.index);
    assert_eq!(config.total_curves, 3);
    assert_eq!(config.authority, AUTHORITY);
}

#[test]
fn created_curve_starts_fresh() {
    let curve = open_sample_curve();
    assert_eq!(curve.mint, MINT);
    assert_eq!(curve.creator, CREATOR);
    assert_eq!(curve.virtual_token_reserves, 2000);
    assert_eq!(curve.virtual_sol_reserves, 1000);
    assert_eq!(curve.real_token_reserves, 0);
    assert_eq!(curve.real_sol_reserves, 0);
    assert_eq!(curve.token_total_supply, 1000);
    assert!(!curve.complete);
}

#[test]
fn creation_rejects_bad_parameters() {
    let mut config = initialize_global_config_handler(AUTHORITY, FEE_RECIPIENT);
    let mut params = sample_params();
    params.initial_supply = 0;
    assert_eq!(
        create_bonding_curve_handler(&mut config, MINT, CREATOR, 0, params),
        Err(ErrorCode::InvalidAmount)
    );
    let mut params = sample_params();
    params.virtual_token_reserves = 0;
    assert_eq!(
        create_bonding_curve_handler(&mut config, MINT, CREATOR, 1000, params),
        Err(ErrorCode::InvalidAmount)
    );
    let mut params = sample_params();
    params.virtual_sol_reserves = 0;
    assert_eq!(
        create_bonding_curve_handler(&mut config, MINT, CREATOR, 1000, params),
        Err(ErrorCode::InvalidAmount)
    );
    let mut params = sample_params();
    params.virtual_token_reserves = params.initial_supply;
    assert_eq!(
        create_bonding_curve_handler(&mut config, MINT, CREATOR, 1000, params),
        Err(ErrorCode::VirtualReservesTooSmall)
    );
    assert_eq!(
        create_bonding_curve_handler(&mut config, MINT, CREATOR, 999, sample_params()),
        Err(ErrorCode::InsufficientBalance)
    );
    // No failed creation may move the registry counter.
    assert_eq!(config.total_curves, 0);
}

#[test]
fn custody_balance_must_match_supply() {
    assert_eq!(verify_custody_balance(1000, 1000), Ok(()));
    assert_eq!(verify_custody_balance(999, 1000), Err(ErrorCode::InvalidSupply));
    assert_eq!(verify_custody_balance(1001, 1000), Err(ErrorCode::InvalidSupply));
}

#[test]
fn buy_updates_reserves_and_reports_amounts() {
    let mut curve = open_sample_curve();
    let outcome = buy_handler(&mut curve, TRADER, 200, 0).unwrap();
    // fee 2, net 198; tokens out: 2000 - (1000 * 2000) / 1198 = 331.
    assert_eq!(outcome.sol_gross, 200);
    assert_eq!(outcome.sol_fee, 2);
    assert_eq!(outcome.sol_net, 198);
    assert_eq!(outcome.token_amount, 331);
    assert_eq!(curve.real_sol_reserves, 198);
    assert_eq!(curve.real_token_reserves, 331);
    assert_eq!(outcome.event.mint, MINT);
    assert_eq!(outcome.event.user, TRADER);
    assert_eq!(outcome.event.sol_amount, 200);
    assert_eq!(outcome.event.token_amount, 331);
    assert!(outcome.event.is_buy);
    assert_eq!(outcome.event.virtual_sol_reserves, 1198);
    assert_eq!(outcome.event.virtual_token_reserves, 1669);
}

#[test]
fn sell_updates_reserves_and_reports_amounts() {
    let mut curve = open_sample_curve();
    buy_handler(&mut curve, TRADER, 200, 0).unwrap();
    let outcome = sell_handler(&mut curve, TRADER, 330, 0).unwrap();
    // gross back: 1198 - (1670 * 1198) / 2000 = 198; fee 1, net 197.
    assert_eq!(outcome.token_amount, 330);
    assert_eq!(outcome.sol_gross, 198);
    assert_eq!(outcome.sol_fee, 1);
    assert_eq!(outcome.sol_net, 197);
    assert_eq!(curve.real_sol_reserves, 0);
    assert_eq!(curve.real_token_reserves, 1);
    assert_eq!(outcome.event.sol_amount, 198);
    assert!(!outcome.event.is_buy);
    assert_eq!(outcome.event.virtual_sol_reserves, 1000);
    assert_eq!(outcome.event.virtual_token_reserves, 1999);
}

#[test]
fn selling_the_whole_position_back_can_outrun_settled_quote() {
    // The buy settles only the net amount, but the gross output of
    // selling every token back floors to one unit more — the curve
    // refuses to pay out quote units that never settled.
    let mut curve = open_sample_curve();
    buy_handler(&mut curve, TRADER, 200, 0).unwrap();
    let before = curve;
    assert_eq!(sell_handler(&mut curve, TRADER, 331, 0), Err(ErrorCode::InsufficientReserves));
    assert_eq!(curve, before);
}

#[test]
fn trades_on_complete_curve_fail() {
    let mut curve = open_sample_curve();
    curve.complete = true;
    let before = curve;
    assert_eq!(buy_handler(&mut curve, TRADER, 200, 0), Err(ErrorCode::CurveComplete));
    assert_eq!(curve, before);
    assert_eq!(sell_handler(&mut curve, TRADER, 10, 0), Err(ErrorCode::CurveComplete));
    assert_eq!(curve, before);
}

#[test]
fn zero_amount_trades_fail() {
    let mut curve = open_sample_curve();
    let before = curve;
    assert_eq!(buy_handler(&mut curve, TRADER, 0, 0), Err(ErrorCode::InvalidAmount));
    assert_eq!(sell_handler(&mut curve, TRADER, 0, 0), Err(ErrorCode::InvalidAmount));
    assert_eq!(curve, before);
}

#[test]
fn slippage_bound_is_exact() {
    let probe: u64 = {
        let mut curve = open_sample_curve();
        buy_handler(&mut curve, TRADER, 200, 0).unwrap().token_amount
    };
    let mut curve = open_sample_curve();
    let before = curve;
    assert_eq!(
        buy_handler(&mut curve, TRADER, 200, probe + 1),
        Err(ErrorCode::SlippageExceeded)
    );
    assert_eq!(curve, before);
    let outcome = buy_handler(&mut curve, TRADER, 200, probe).unwrap();
    assert_eq!(outcome.token_amount, probe);
}

#[test]
fn sell_slippage_bound_is_exact() {
    let mut curve = open_sample_curve();
    buy_handler(&mut curve, TRADER, 200, 0).unwrap();
    let before = curve;
    // net quote back for selling 330 is 197.
    assert_eq!(
        sell_handler(&mut curve, TRADER, 330, 198),
        Err(ErrorCode::SlippageExceeded)
    );
    assert_eq!(curve, before);
    let outcome = sell_handler(&mut curve, TRADER, 330, 197).unwrap();
    assert_eq!(outcome.sol_net, 197);
}

#[test]
fn sell_cannot_draw_unsettled_quote() {
    // Nothing has been bought, so the curve holds no settled quote units.
    let mut curve = open_sample_curve();
    let before = curve;
    assert_eq!(sell_handler(&mut curve, TRADER, 10, 0), Err(ErrorCode::InsufficientReserves));
    assert_eq!(curve, before);
}

#[test]
fn sell_cannot_return_more_than_out_of_custody() {
    let curve_template = BondingCurve {
        mint: MINT,
        creator: CREATOR,
        virtual_token_reserves: 1000,
        virtual_sol_reserves: 1_000_000_000,
        real_token_reserves: 5,
        real_sol_reserves: 1_000_000_000,
        token_total_supply: 999,
        complete: false,
        index: 0,
    };
    let mut curve = curve_template;
    assert_eq!(sell_handler(&mut curve, TRADER, 10, 0), Err(ErrorCode::InsufficientReserves));
    assert_eq!(curve, curve_template);
}

#[test]
fn unrepresentable_effective_reserves_fail() {
    let mut curve = BondingCurve {
        mint: MINT,
        creator: CREATOR,
        virtual_token_reserves: 10,
        virtual_sol_reserves: u64::MAX,
        real_token_reserves: 0,
        real_sol_reserves: 1,
        token_total_supply: 5,
        complete: false,
        index: 0,
    };
    let before = curve;
    assert_eq!(buy_handler(&mut curve, TRADER, 200, 0), Err(ErrorCode::Overflow));
    assert_eq!(sell_handler(&mut curve, TRADER, 1, 0), Err(ErrorCode::Overflow));
    assert_eq!(curve, before);
}

#[test]
fn unrepresentable_post_trade_reserves_fail() {
    let mut curve = BondingCurve {
        mint: MINT,
        creator: CREATOR,
        virtual_token_reserves: 10,
        virtual_sol_reserves: u64::MAX - 100,
        real_token_reserves: 0,
        real_sol_reserves: 50,
        token_total_supply: 5,
        complete: false,
        index: 0,
    };
    let before = curve;
    // The effective quote reserves are representable, but settling the net
    // amount of 198 would push them past the 64-bit range.
    assert_eq!(buy_handler(&mut curve, TRADER, 200, 0), Err(ErrorCode::Overflow));
    assert_eq!(curve, before);
}

#[test]
fn trade_product_never_grows() {
    let mut curve = open_sample_curve();
    let product = |c: &BondingCurve| {
        (c.virtual_sol_reserves as u128 + c.real_sol_reserves as u128)
            * (c.virtual_token_reserves as u128 - c.real_token_reserves as u128)
    };
    let before_buy = product(&curve);
    buy_handler(&mut curve, TRADER, 200, 0).unwrap();
    let after_buy = product(&curve);
    assert!(after_buy <= before_buy);
    assert!(before_buy - after_buy < curve.virtual_sol_reserves as u128 + curve.real_sol_reserves as u128);
    sell_handler(&mut curve, TRADER, 330, 0).unwrap();
    let after_sell = product(&curve);
    assert!(after_sell <= after_buy);
    assert!(
        after_buy - after_sell
            < curve.virtual_token_reserves as u128 - curve.real_token_reserves as u128
    );
}
