use vstd::prelude::*;

verus! {

/// Protocol fee rate in basis points: 100 basis points, that is 1% of the
/// gross quote amount of every trade. The rate is a protocol constant, not
/// something a caller supplies.
pub const FEE_BASIS_POINTS: u16 = 100;

/// Nominal token-side liquidity a curve is conventionally opened with.
pub const INITIAL_VIRTUAL_TOKEN_RESERVES: u64 = 1_073_000_000_000_000;

/// Nominal quote-side liquidity a curve is conventionally opened with.
pub const INITIAL_VIRTUAL_SOL_RESERVES: u64 = 30_000_000_000;

} // verus!
