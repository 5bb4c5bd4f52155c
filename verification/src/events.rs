use vstd::prelude::*;
use crate::state::Pubkey;

verus! {

/// The notification record a successful trade produces. The engine builds
/// it; publishing it is the telemetry layer's business.
///
/// The two reserve fields mirror the names of the stored virtual reserves,
/// but what they carry are the *post-trade effective* reserves: the values
/// the next trade will be priced against.
#[derive(Clone, Copy, PartialEq, Eq, Debug)]
pub struct TradeEvent {
    /// The base asset that was traded.
    pub mint: Pubkey,
    /// The trader.
    pub user: Pubkey,
    /// The gross quote amount the trade moved, fee included.
    pub sol_amount: u64,
    /// The base-asset amount the trade moved.
    pub token_amount: u64,
    /// True for a buy, false for a sell.
    pub is_buy: bool,
    /// Post-trade effective quote reserves.
    pub virtual_sol_reserves: u64,
    /// Post-trade effective token reserves.
    pub virtual_token_reserves: u64,
}

/// What a successful trade hands back to its caller: the three amounts the
/// asset-transfer layer must move — which it must apply all together or not
/// at all — and the notification record.
#[derive(Clone, Copy, PartialEq, Eq, Debug)]
pub struct TradeOutcome {
    /// Base-asset units moved between curve custody and the trader.
    pub token_amount: u64,
    /// Gross quote amount of the trade; always `sol_fee + sol_net`.
    pub sol_gross: u64,
    /// Quote units owed to the fee recipient.
    pub sol_fee: u64,
    /// Quote units moved between trader and curve: into the curve on a buy,
    /// out to the trader on a sell.
    pub sol_net: u64,
    /// The record handed to the telemetry layer.
    pub event: TradeEvent,
}

} // verus!
