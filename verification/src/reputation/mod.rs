//! Reputation: raters score agents from 1.00 to 5.00 (100 to 500), each
//! agent's totals decide its tier, and a soulbound reputation NFT records
//! that tier.

pub mod errors;
pub mod instructions;
pub mod properties;
pub mod state;
