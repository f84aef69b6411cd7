use vstd::prelude::*;

use crate::agent_registry::errors::AgentRegistryError;
use crate::agent_registry::state::AgentAccount;
use crate::outcome::outcome;
use crate::pubkey::Pubkey;

verus! {

/// The first check that rejects the link, if any.
pub open spec fn link_metaplex_identity_error(
    owner: Pubkey,
    agent: AgentAccount,
    core_asset: Pubkey,
) -> Option<AgentRegistryError> {
    if agent.owner != owner {
        Some(AgentRegistryError::Unauthorized)
    } else if !agent.core_asset.is_zero() {
        Some(AgentRegistryError::CoreIdentityAlreadyLinked)
    } else if core_asset.is_zero() {
        Some(AgentRegistryError::InvalidCoreAsset)
    } else {
        None
    }
}

/// The owner links a Metaplex Core asset as the agent's on-chain identity;
/// an agent links at most one. `agent_registration_uri` is informational.
pub fn handler(
    owner: Pubkey,
    agent_account: &mut AgentAccount,
    core_asset: Pubkey,
    agent_registration_uri: String,
    now: i64,
) -> (r: Result<(), AgentRegistryError>)
    ensures
        r == outcome(link_metaplex_identity_error(owner, *old(agent_account), core_asset)),
        r is Err ==> *final(agent_account) == *old(agent_account),
        r is Ok ==> *final(agent_account) == (AgentAccount {
            core_asset,
            updated_at: now,
            ..*old(agent_account)
        }),
{
    if agent_account.owner != owner {
        return Err(AgentRegistryError::Unauthorized);
    }
    // Ensure no identity is already linked
    if !agent_account.core_asset.is_unset() {
        return Err(AgentRegistryError::CoreIdentityAlreadyLinked);
    }
    // The linked asset must not be the zero address
    if core_asset.is_unset() {
        return Err(AgentRegistryError::InvalidCoreAsset);
    }
    agent_account.core_asset = core_asset;
    agent_account.updated_at = now;
    Ok(())
}

} // verus!
