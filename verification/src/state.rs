use vstd::prelude::*;

verus! {

/// An account or asset identity: an opaque 32-byte key. The engine never
/// looks inside one; it only stores and reports them.
pub type Pubkey = [u8; 32];

/// The per-curve reserve record.
///
/// Accounting convention: `real_token_reserves` counts the base-asset units
/// currently *out of custody* — handed to buyers and not yet sold back. It
/// grows on a buy and shrinks on a sell, and never exceeds
/// `virtual_token_reserves`. The reserves the pricing formula actually sees
/// are the *effective* ones:
///
/// * effective quote reserves: `virtual_sol_reserves + real_sol_reserves`
/// * effective token reserves: `virtual_token_reserves - real_token_reserves`
#[derive(Clone, Copy, PartialEq, Eq, Debug)]
pub struct BondingCurve {
    /// The base asset this curve trades.
    pub mint: Pubkey,
    /// Who opened the curve.
    pub creator: Pubkey,
    /// Nominal token-side liquidity baked into the pricing curve.
    pub virtual_token_reserves: u64,
    /// Nominal quote-side liquidity baked into the pricing curve.
    pub virtual_sol_reserves: u64,
    /// Base-asset units out of custody through settled trades.
    pub real_token_reserves: u64,
    /// Quote-asset units settled into the curve through trades.
    pub real_sol_reserves: u64,
    /// Base-asset units placed under curve custody at creation.
    pub token_total_supply: u64,
    /// True once the curve is retired from trading; write-once.
    pub complete: bool,
    /// Assigned from the global registry at creation, immutable afterward.
    pub index: u64,
}

impl BondingCurve {
    /// Effective quote-side reserves fed to the pricing formula.
    pub open spec fn eff_sol(self) -> int {
        self.virtual_sol_reserves + self.real_sol_reserves
    }

    /// Effective token-side reserves fed to the pricing formula: the
    /// nominal liquidity minus what is out of custody.
    pub open spec fn eff_token(self) -> int {
        self.virtual_token_reserves - self.real_token_reserves
    }

    /// The constant-product trading invariant, always taken over the
    /// effective reserves, never over the bare virtual values.
    pub open spec fn eff_product(self) -> int {
        self.eff_sol() * self.eff_token()
    }

    /// Well-formedness of a curve record: what creation establishes and
    /// every trade preserves. The strict gap between the virtual token
    /// reserves and the supply keeps the nominal price strictly positive
    /// from the first trade on, and the bound on `real_token_reserves`
    /// keeps the effective token reserves from underflowing.
    pub open spec fn wf(self) -> bool {
        &&& 0 < self.token_total_supply
        &&& 0 < self.virtual_sol_reserves
        &&& self.token_total_supply < self.virtual_token_reserves
        &&& self.real_token_reserves <= self.virtual_token_reserves
    }
}

/// The single process-wide configuration record: the authority and fee
/// recipient identities, and the registry counter that hands out curve
/// indices.
#[derive(Clone, Copy, PartialEq, Eq, Debug)]
pub struct GlobalConfig {
    /// Who may administer the global configuration.
    pub authority: Pubkey,
    /// Where protocol fees are sent.
    pub fee_recipient: Pubkey,
    /// How many curves have been created; the source of each curve's index.
    pub total_curves: u64,
}

impl GlobalConfig {
    /// Hands out the next curve index: returns the current counter value
    /// and moves the counter forward by one, so no two creations can ever
    /// observe the same value.
    pub fn next_index(&mut self) -> (index: u64)
        requires
            old(self).total_curves < u64::MAX,
        ensures
            index == old(self).total_curves,
            final(self).total_curves == old(self).total_curves + 1,
            final(self).authority == old(self).authority,
            final(self).fee_recipient == old(self).fee_recipient,
    {
        let index = self.total_curves;
        self.total_curves = self.total_curves + 1;
        index
    }
}

/// Builds the initial global configuration: the given identities and a
/// registry counter starting at zero.
pub fn initialize_global_config_handler(authority: Pubkey, fee_recipient: Pubkey) -> (config:
    GlobalConfig)
    ensures
        config.authority == authority,
        config.fee_recipient == fee_recipient,
        config.total_curves == 0,
{
    GlobalConfig { authority, fee_recipient, total_curves: 0 }
}

} // verus!
