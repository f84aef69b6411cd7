//! Dispute resolver: a party to a job opens a dispute, both parties submit
//! evidence, and the resolver authority records one final outcome.

pub mod errors;
pub mod instructions;
pub mod properties;
pub mod state;
