//! The combined marketplace program: agent registry, job escrow with
//! lamports held by the job record, dispute resolution by the job's poster,
//! and star ratings that decide an agent's tier.

pub mod agent_registry;
pub mod dispute_resolver;
pub mod errors;
pub mod job_escrow;
pub mod properties;
pub mod reputation;
