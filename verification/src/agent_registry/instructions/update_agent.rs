use vstd::prelude::*;

use crate::agent_registry::errors::AgentRegistryError;
use crate::agent_registry::state::{AgentAccount, MAX_CAPABILITIES_LENGTH, MAX_NAME_LENGTH};
use crate::outcome::outcome;
use crate::pubkey::Pubkey;

verus! {

/// The first check that rejects the update, if any.
pub open spec fn update_agent_error(
    owner: Pubkey,
    agent: AgentAccount,
    name_len: u16,
    capabilities_len: u16,
) -> Option<AgentRegistryError> {
    if agent.owner != owner {
        Some(AgentRegistryError::Unauthorized)
    } else if name_len > MAX_NAME_LENGTH {
        Some(AgentRegistryError::NameTooLong)
    } else if capabilities_len > MAX_CAPABILITIES_LENGTH {
        Some(AgentRegistryError::CapabilitiesTooLong)
    } else {
        None
    }
}

/// The owner replaces the agent's name and capabilities.
pub fn handler(
    owner: Pubkey,
    agent_account: &mut AgentAccount,
    name: [u8; 64],
    name_len: u16,
    capabilities: [u8; 256],
    capabilities_len: u16,
    now: i64,
) -> (r: Result<(), AgentRegistryError>)
    ensures
        r == outcome(update_agent_error(owner, *old(agent_account), name_len, capabilities_len)),
        r is Err ==> *final(agent_account) == *old(agent_account),
        r is Ok ==> *final(agent_account) == (AgentAccount {
            name,
            name_len,
            capabilities,
            capabilities_len,
            updated_at: now,
            ..*old(agent_account)
        }),
{
    if agent_account.owner != owner {
        return Err(AgentRegistryError::Unauthorized);
    }
    if name_len as usize > MAX_NAME_LENGTH {
        return Err(AgentRegistryError::NameTooLong);
    }
    if capabilities_len as usize > MAX_CAPABILITIES_LENGTH {
        return Err(AgentRegistryError::CapabilitiesTooLong);
    }
    agent_account.name = name;
    agent_account.name_len = name_len;
    agent_account.capabilities = capabilities;
    agent_account.capabilities_len = capabilities_len;
    agent_account.updated_at = now;
    Ok(())
}

} // verus!
