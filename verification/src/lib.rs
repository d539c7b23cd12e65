//! Accounting core of a token exchange with yield farming: validated
//! operation contexts, constant-product liquidity provisioning, per-share
//! reward accounting and a block-weighted average of pool reserves.
//!
//! Amounts are `u128`. Every operation either completes with the exact
//! mathematical result or fails with a typed error and leaves its state as it
//! was; nothing wraps.

pub mod add_liquidity;
pub mod claim_rewards;
pub mod conservation;
pub mod context;
pub mod errors;
pub mod farm;
pub mod liquidity;
pub mod math;
pub mod safe_reserves;
pub mod types;
