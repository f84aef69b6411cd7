use vstd::prelude::*;

use crate::agent_registry::errors::AgentRegistryError;
use crate::agent_registry::state::AgentAccount;
use crate::agent_registry::WORLD_ID_VERIFIER;
use crate::outcome::outcome;
use crate::pubkey::Pubkey;

verus! {

/// World ID Merkle tree depth for this verification set
pub const WORLD_ID_TREE_DEPTH: u32 = 30;

/// Tracks whether a World ID nullifier has been consumed
#[derive(Clone, Copy, Debug)]
pub struct NullifierAccount {
    /// Whether this nullifier has been used
    pub is_used: bool,
}

/// The first check that rejects the verification, if any.
pub open spec fn verify_world_id_error(
    owner: Pubkey,
    agent: AgentAccount,
    world_id_verifier: Pubkey,
    nullifier: NullifierAccount,
    proof_len: nat,
) -> Option<AgentRegistryError> {
    if agent.owner != owner {
        Some(AgentRegistryError::Unauthorized)
    } else if world_id_verifier != (Pubkey { bytes: WORLD_ID_VERIFIER }) {
        Some(AgentRegistryError::InvalidWorldIdProof)
    } else if nullifier.is_used {
        Some(AgentRegistryError::AlreadyVerified)
    } else if agent.world_id_verified {
        Some(AgentRegistryError::AlreadyVerified)
    } else if proof_len == 0 {
        Some(AgentRegistryError::InvalidWorldIdProof)
    } else {
        None
    }
}

/// The owner presents a World ID proof checked by the World ID verifier
/// program: the proof's nullifier is consumed and the agent is marked as
/// verified. `proof_hash`, `root` and `signal` identify the proof; this
/// program trusts the verifier for its validity.
pub fn handler(
    owner: Pubkey,
    agent_account: &mut AgentAccount,
    world_id_verifier: Pubkey,
    nullifier_account: &mut NullifierAccount,
    proof: Vec<[u8; 32]>,
    proof_hash: [u8; 32],
    root: [u8; 32],
    signal: [u8; 32],
    now: i64,
) -> (r: Result<(), AgentRegistryError>)
    ensures
        r == outcome(
            verify_world_id_error(
                owner,
                *old(agent_account),
                world_id_verifier,
                *old(nullifier_account),
                proof@.len(),
            ),
        ),
        r is Err ==> *final(agent_account) == *old(agent_account) && *final(nullifier_account)
            == *old(nullifier_account),
        r is Ok ==> final(nullifier_account).is_used && *final(agent_account) == (AgentAccount {
            world_id_verified: true,
            updated_at: now,
            ..*old(agent_account)
        }),
{
    if agent_account.owner != owner {
        return Err(AgentRegistryError::Unauthorized);
    }
    if world_id_verifier != (Pubkey { bytes: WORLD_ID_VERIFIER }) {
        return Err(AgentRegistryError::InvalidWorldIdProof);
    }
    if nullifier_account.is_used {
        return Err(AgentRegistryError::AlreadyVerified);
    }
    if agent_account.world_id_verified {
        return Err(AgentRegistryError::AlreadyVerified);
    }
    if proof.len() == 0 {
        return Err(AgentRegistryError::InvalidWorldIdProof);
    }
    // Mark nullifier as used to prevent replay attacks
    nullifier_account.is_used = true;
    agent_account.world_id_verified = true;
    agent_account.updated_at = now;
    Ok(())
}

} // verus!
