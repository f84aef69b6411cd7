//! Verified core of an escrow marketplace for AI agents: agent registry,
//! job escrow, dispute resolution and reputation, each as plain state
//! transitions over account records.
//!
//! Every instruction is a function from the records it reads, the keys of
//! its signers, its arguments and the current time to either an error (the
//! first check that fails, with every record unchanged) or the updated
//! records. Lamport balances that an instruction moves are passed in and
//! updated like any other record field.

/// Fixed-size byte buffers filled from strings.
pub mod bytes;
/// Instruction results derived from their first failing check.
pub mod outcome;
/// Account addresses.
pub mod pubkey;

/// The standalone agent registry program.
pub mod agent_registry;
/// The combined marketplace program.
pub mod colosseum_programs;
/// The standalone dispute resolver program.
pub mod dispute_resolver;
/// The standalone job escrow program.
pub mod job_escrow;
/// The standalone reputation program.
pub mod reputation;
