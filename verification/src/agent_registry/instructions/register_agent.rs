use vstd::prelude::*;

use crate::agent_registry::errors::AgentRegistryError;
use crate::agent_registry::state::{AgentAccount, MAX_CAPABILITIES_LENGTH, MAX_NAME_LENGTH};
use crate::pubkey::Pubkey;

verus! {

/// Minimum stake required to register an agent (0.1 SOL)
pub const MIN_STAKE_LAMPORTS: u64 = 100_000_000;

/// The first check that rejects the registration, if any.
pub open spec fn register_agent_error(
    name_len: u16,
    capabilities_len: u16,
    stake_lamports: u64,
) -> Option<AgentRegistryError> {
    if name_len > MAX_NAME_LENGTH {
        Some(AgentRegistryError::NameTooLong)
    } else if capabilities_len > MAX_CAPABILITIES_LENGTH {
        Some(AgentRegistryError::CapabilitiesTooLong)
    } else if stake_lamports < MIN_STAKE_LAMPORTS {
        Some(AgentRegistryError::InsufficientStake)
    } else {
        None
    }
}

/// The record of a newly registered agent: active, unverified, with no jobs,
/// no reputation and no linked identity.
pub open spec fn is_registered_agent(
    agent: AgentAccount,
    owner: Pubkey,
    swig_wallet: Pubkey,
    name: [u8; 64],
    name_len: u16,
    capabilities: [u8; 256],
    capabilities_len: u16,
    stake_lamports: u64,
    now: i64,
    bump: u8,
) -> bool {
    &&& agent.owner == owner
    &&& agent.name == name
    &&& agent.name_len == name_len
    &&& agent.capabilities == capabilities
    &&& agent.capabilities_len == capabilities_len
    &&& agent.stake_lamports == stake_lamports
    &&& agent.jobs_completed == 0
    &&& agent.reputation_sum == 0
    &&& !agent.world_id_verified
    &&& agent.swig_wallet == swig_wallet
    &&& agent.core_asset.is_zero()
    &&& agent.is_active
    &&& agent.created_at == now
    &&& agent.updated_at == now
    &&& agent.bump == bump
}

/// Register a new AI agent with a name, capabilities, and stake. The caller
/// then moves `stake_lamports` from the owner into the agent's record as a
/// bond.
pub fn handler(
    owner: Pubkey,
    swig_wallet: Pubkey,
    name: [u8; 64],
    name_len: u16,
    capabilities: [u8; 256],
    capabilities_len: u16,
    stake_lamports: u64,
    now: i64,
    bump: u8,
) -> (r: Result<AgentAccount, AgentRegistryError>)
    ensures
        match register_agent_error(name_len, capabilities_len, stake_lamports) {
            Some(e) => r == Err::<AgentAccount, AgentRegistryError>(e),
            None => r is Ok && is_registered_agent(
                r->Ok_0,
                owner,
                swig_wallet,
                name,
                name_len,
                capabilities,
                capabilities_len,
                stake_lamports,
                now,
                bump,
            ),
        },
{
    if name_len as usize > MAX_NAME_LENGTH {
        return Err(AgentRegistryError::NameTooLong);
    }
    if capabilities_len as usize > MAX_CAPABILITIES_LENGTH {
        return Err(AgentRegistryError::CapabilitiesTooLong);
    }
    if stake_lamports < MIN_STAKE_LAMPORTS {
        return Err(AgentRegistryError::InsufficientStake);
    }
    Ok(
        AgentAccount {
            owner,
            name,
            name_len,
            capabilities,
            capabilities_len,
            stake_lamports,
            jobs_completed: 0,
            reputation_sum: 0,
            world_id_verified: false,
            swig_wallet,
            core_asset: Pubkey::zero(),
            is_active: true,
            created_at: now,
            updated_at: now,
            bump,
        },
    )
}

} // verus!
