use vstd::prelude::*;

verus! {

/// Errors of the agent registry program.
#[derive(Clone, Copy, Debug, PartialEq, Eq, Structural)]
pub enum AgentRegistryError {
    NameTooLong,
    CapabilitiesTooLong,
    AgentAlreadyRegistered,
    AgentNotFound,
    Unauthorized,
    AlreadyDeactivated,
    AlreadyActive,
    AlreadyVerified,
    InvalidWorldIdProof,
    InsufficientStake,
    InvalidSwigWallet,
    CoreIdentityAlreadyLinked,
    InvalidCoreAsset,
    IdentityNotLinked,
}

} // verus!
