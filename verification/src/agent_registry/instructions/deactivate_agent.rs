use vstd::prelude::*;

use crate::agent_registry::errors::AgentRegistryError;
use crate::agent_registry::state::AgentAccount;
use crate::outcome::outcome;
use crate::pubkey::Pubkey;

verus! {

/// The first check that rejects the deactivation, if any.
pub open spec fn deactivate_agent_error(owner: Pubkey, agent: AgentAccount) -> Option<
    AgentRegistryError,
> {
    if agent.owner != owner {
        Some(AgentRegistryError::Unauthorized)
    } else if !agent.is_active {
        Some(AgentRegistryError::AlreadyDeactivated)
    } else {
        None
    }
}

/// The owner deactivates an active agent.
pub fn handler(owner: Pubkey, agent_account: &mut AgentAccount, now: i64) -> (r: Result<
    (),
    AgentRegistryError,
>)
    ensures
        r == outcome(deactivate_agent_error(owner, *old(agent_account))),
        r is Err ==> *final(agent_account) == *old(agent_account),
        r is Ok ==> *final(agent_account) == (AgentAccount {
            is_active: false,
            updated_at: now,
            ..*old(agent_account)
        }),
{
    if agent_account.owner != owner {
        return Err(AgentRegistryError::Unauthorized);
    }
    if !agent_account.is_active {
        return Err(AgentRegistryError::AlreadyDeactivated);
    }
    agent_account.is_active = false;
    agent_account.updated_at = now;
    Ok(())
}

} // verus!
