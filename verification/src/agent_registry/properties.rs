use vstd::prelude::*;

use crate::agent_registry::errors::AgentRegistryError;
use crate::agent_registry::instructions::deactivate_agent::deactivate_agent_error;
use crate::agent_registry::instructions::link_metaplex_identity::link_metaplex_identity_error;
use crate::agent_registry::instructions::register_agent::{
    is_registered_agent, register_agent_error,
};
use crate::agent_registry::instructions::update_agent::update_agent_error;
use crate::agent_registry::instructions::verify_world_id::{
    verify_world_id_error, NullifierAccount,
};
use crate::agent_registry::state::{
    tier_of_average, AgentAccount, AgentTier, MAX_CAPABILITIES_LENGTH, MAX_NAME_LENGTH,
};
use crate::agent_registry::WORLD_ID_VERIFIER;
use crate::pubkey::Pubkey;

verus! {

/// The stored lengths of name and capabilities fit their buffers.
pub open spec fn lengths_fit(agent: AgentAccount) -> bool {
    agent.name_len <= MAX_NAME_LENGTH && agent.capabilities_len <= MAX_CAPABILITIES_LENGTH
}

/// Registration and updates only store lengths that fit their buffers.
pub proof fn stored_lengths_fit(
    agent: AgentAccount,
    registered: AgentAccount,
    owner: Pubkey,
    swig_wallet: Pubkey,
    name: [u8; 64],
    name_len: u16,
    capabilities: [u8; 256],
    capabilities_len: u16,
    stake_lamports: u64,
    now: i64,
    bump: u8,
)
    ensures
        register_agent_error(name_len, capabilities_len, stake_lamports) is None
            && is_registered_agent(
            registered,
            owner,
            swig_wallet,
            name,
            name_len,
            capabilities,
            capabilities_len,
            stake_lamports,
            now,
            bump,
        ) ==> lengths_fit(registered),
        update_agent_error(owner, agent, name_len, capabilities_len) is None ==> lengths_fit(
            AgentAccount {
                name,
                name_len,
                capabilities,
                capabilities_len,
                updated_at: now,
                ..agent
            },
        ),
{
}

/// Only the owner changes an agent: update, deactivation, World ID
/// verification and identity linking by anyone else are refused as
/// unauthorized.
pub proof fn only_owner_changes_agent(
    caller: Pubkey,
    agent: AgentAccount,
    verifier: Pubkey,
    nullifier: NullifierAccount,
    proof_len: nat,
    core_asset: Pubkey,
    name_len: u16,
    capabilities_len: u16,
)
    requires
        caller != agent.owner,
    ensures
        update_agent_error(caller, agent, name_len, capabilities_len) == Some(
            AgentRegistryError::Unauthorized,
        ),
        deactivate_agent_error(caller, agent) == Some(AgentRegistryError::Unauthorized),
        verify_world_id_error(caller, agent, verifier, nullifier, proof_len) == Some(
            AgentRegistryError::Unauthorized,
        ),
        link_metaplex_identity_error(caller, agent, core_asset) == Some(
            AgentRegistryError::Unauthorized,
        ),
{
}

/// World ID verification happens once per agent and once per proof: a
/// verified agent, or a consumed nullifier, is refused.
pub proof fn world_id_verifies_once(
    owner: Pubkey,
    agent: AgentAccount,
    verifier: Pubkey,
    nullifier: NullifierAccount,
    proof_len: nat,
)
    requires
        agent.world_id_verified || nullifier.is_used,
    ensures
        verify_world_id_error(owner, agent, verifier, nullifier, proof_len) is Some,
{
}

/// An agent links at most one identity: after a successful link the agent's
/// asset is set, and any further link is refused.
pub proof fn identity_links_once(
    owner: Pubkey,
    agent: AgentAccount,
    core_asset: Pubkey,
    other_asset: Pubkey,
    now: i64,
)
    requires
        link_metaplex_identity_error(owner, agent, core_asset) is None,
    ensures
        !core_asset.is_zero(),
        link_metaplex_identity_error(
            owner,
            AgentAccount { core_asset, updated_at: now, ..agent },
            other_asset,
        ) is Some,
{
}

/// The rank of a tier, from Scout (0) to Legend (3).
pub open spec fn tier_rank(t: AgentTier) -> int {
    match t {
        AgentTier::Scout => 0,
        AgentTier::Rookie => 1,
        AgentTier::Pro => 2,
        AgentTier::Legend => 3,
    }
}

/// A higher average reputation never gives a lower tier.
pub proof fn tier_grows_with_average(low: u64, high: u64)
    requires
        low <= high,
    ensures
        tier_rank(tier_of_average(low)) <= tier_rank(tier_of_average(high)),
{
}

/// Exactly when a registration is accepted: a name of at most 64 bytes,
/// capabilities of at most 256 bytes, and a stake of at least 0.1 SOL
/// (100_000_000 lamports). The new agent is active, unverified, without
/// jobs, reputation or linked identity.
pub proof fn registration_accepted_exactly_when(
    name_len: u16,
    capabilities_len: u16,
    stake_lamports: u64,
    agent: AgentAccount,
    owner: Pubkey,
    swig_wallet: Pubkey,
    name: [u8; 64],
    capabilities: [u8; 256],
    now: i64,
    bump: u8,
)
    ensures
        register_agent_error(name_len, capabilities_len, stake_lamports) is None <==> {
            &&& name_len <= 64
            &&& capabilities_len <= 256
            &&& stake_lamports >= 100_000_000
        },
        is_registered_agent(
            agent,
            owner,
            swig_wallet,
            name,
            name_len,
            capabilities,
            capabilities_len,
            stake_lamports,
            now,
            bump,
        ) ==> {
            &&& agent.owner == owner
            &&& agent.is_active
            &&& !agent.world_id_verified
            &&& agent.jobs_completed == 0
            &&& agent.reputation_sum == 0
            &&& agent.core_asset.is_zero()
            &&& agent.stake_lamports == stake_lamports
        },
{
}

/// Exactly when an update is accepted: the owner updates with a name of at
/// most 64 bytes and capabilities of at most 256 bytes.
pub proof fn update_accepted_exactly_when(
    owner: Pubkey,
    agent: AgentAccount,
    name_len: u16,
    capabilities_len: u16,
)
    ensures
        update_agent_error(owner, agent, name_len, capabilities_len) is None <==> {
            &&& owner == agent.owner
            &&& name_len <= 64
            &&& capabilities_len <= 256
        },
{
}

/// Exactly when a deactivation is accepted: the owner deactivates an
/// active agent.
pub proof fn deactivation_accepted_exactly_when(owner: Pubkey, agent: AgentAccount)
    ensures
        deactivate_agent_error(owner, agent) is None <==> (owner == agent.owner
            && agent.is_active),
{
}

/// Exactly when a World ID verification is accepted: the owner of an
/// unverified agent presents a non-empty proof through the World ID
/// verifier with an unused nullifier.
pub proof fn world_id_accepted_exactly_when(
    owner: Pubkey,
    agent: AgentAccount,
    world_id_verifier: Pubkey,
    nullifier: NullifierAccount,
    proof_len: nat,
)
    ensures
        verify_world_id_error(owner, agent, world_id_verifier, nullifier, proof_len) is None
            <==> {
            &&& owner == agent.owner
            &&& world_id_verifier.bytes == WORLD_ID_VERIFIER
            &&& !nullifier.is_used
            &&& !agent.world_id_verified
            &&& proof_len > 0
        },
{
}

/// Exactly when linking a Metaplex Core identity is accepted: the owner
/// links a non-zero asset to an agent that has none yet.
pub proof fn identity_link_accepted_exactly_when(
    owner: Pubkey,
    agent: AgentAccount,
    core_asset: Pubkey,
)
    ensures
        link_metaplex_identity_error(owner, agent, core_asset) is None <==> {
            &&& owner == agent.owner
            &&& agent.core_asset.is_zero()
            &&& !core_asset.is_zero()
        },
{
}

/// An agent's tier follows its average reputation (the reputation sum over
/// the completed jobs, rounded down, on the 100-500 scale; 0 without jobs):
/// Scout below 200, Rookie from 200 below 350, Pro from 350 below 450, and
/// Legend from 450.
pub proof fn agent_tier_follows_average(agent: AgentAccount)
    ensures
        ({
            let avg = if agent.jobs_completed == 0 {
                0
            } else {
                agent.reputation_sum as int / agent.jobs_completed as int
            };
            &&& tier_of_average(agent.spec_average_reputation()) == AgentTier::Scout <==> avg
                < 200
            &&& tier_of_average(agent.spec_average_reputation()) == AgentTier::Rookie <==> 200
                <= avg < 350
            &&& tier_of_average(agent.spec_average_reputation()) == AgentTier::Pro <==> 350 <= avg
                < 450
            &&& tier_of_average(agent.spec_average_reputation()) == AgentTier::Legend <==> avg
                >= 450
        }),
{
}

} // verus!
