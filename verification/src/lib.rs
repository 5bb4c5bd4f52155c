//! A constant-product bonding-curve exchange engine.
//!
//! The engine prices buy and sell trades for a fungible base asset against a
//! native quote asset, applies a protocol fee, keeps the per-curve reserve
//! accounting consistent, and tracks the one-way lifecycle of a curve from
//! open to complete.
//!
//! The engine is a deterministic, closed-form function of local reserve
//! state: it computes amounts and next states, and leaves durable storage,
//! authorization, the actual movement of balances, and the publishing of
//! trade notifications to the surrounding environment.

pub mod buy;
pub mod constants;
pub mod create_bonding_curve;
pub mod errors;
pub mod events;
pub mod fees;
pub mod laws;
pub mod pricing;
pub mod sell;
pub mod state;
