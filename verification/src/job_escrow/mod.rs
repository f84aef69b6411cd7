//! Job escrow: a poster locks a payment in a vault, a worker accepts the job,
//! submits a deliverable, and the vault is paid out exactly once, either to
//! the worker on approval or back to the poster on cancellation or expiry.

pub mod errors;
pub mod instructions;
pub mod properties;
pub mod state;
