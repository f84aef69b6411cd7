use vstd::prelude::*;

use crate::bytes::{copy_prefix, utf8, with_prefix, zeros};
use crate::colosseum_programs::errors::ColosseumError;
use crate::outcome::outcome;
use crate::pubkey::Pubkey;

verus! {

/// Agent tiers, stored in an agent record as their codes 0 to 3.
#[derive(Clone, Copy, Debug, PartialEq, Eq, Structural)]
pub enum AgentTier {
    Scout,
    Rookie,
    Pro,
    Legend,
}

/// The code under which a tier is stored.
pub open spec fn tier_code(t: AgentTier) -> u8 {
    match t {
        AgentTier::Scout => 0,
        AgentTier::Rookie => 1,
        AgentTier::Pro => 2,
        AgentTier::Legend => 3,
    }
}

/// Record of a registered agent.
#[derive(Clone, Debug)]
pub struct Agent {
    /// The wallet that owns this agent
    pub authority: Pubkey,
    /// Agent name (fixed size)
    pub name: [u8; 32],
    /// Actual length of name
    pub name_len: u8,
    /// What the agent can do
    pub capabilities: Vec<[u8; 32]>,
    pub capability_count: u8,
    /// SOL staked as bond
    pub stake: u64,
    /// Cumulative score
    pub reputation_score: u32,
    /// Number of ratings
    pub reputation_count: u16,
    pub jobs_completed: u32,
    pub jobs_failed: u16,
    pub active: bool,
    /// 0=Scout, 1=Rookie, 2=Pro, 3=Legend
    pub tier: u8,
    /// NFT mint address (the zero key if not minted)
    pub reputation_nft_mint: Pubkey,
    pub registered_at: i64,
    pub bump: u8,
    /// Poseidon hash of World ID nullifier
    pub world_id_hash: [u8; 32],
    /// Whether World ID has been verified
    pub world_id_verified: bool,
    /// Swig wallet for World ID auth flows
    pub swig_wallet: Pubkey,
}

/// 32-byte buffers made from strings: each string's bytes at the start of a
/// zeroed buffer, in order.
pub open spec fn buffers_of_strings(buffers: Seq<[u8; 32]>, strings: Seq<String>) -> bool {
    &&& buffers.len() == strings.len()
    &&& forall|i: int|
        0 <= i < strings.len() ==> (#[trigger] buffers[i])@ == with_prefix(
            zeros(32),
            utf8(strings[i]@),
        )
}

/// Every string fits a 32-byte buffer.
pub open spec fn strings_fit_32(strings: Seq<String>) -> bool {
    forall|i: int| 0 <= i < strings.len() ==> utf8((#[trigger] strings[i])@).len() <= 32
}

/// Copy each string into a zeroed 32-byte buffer.
pub(crate) fn string_buffers(strings: &Vec<String>) -> (r: Vec<[u8; 32]>)
    requires
        strings_fit_32(strings@),
    ensures
        buffers_of_strings(r@, strings@),
{
    let mut buffers: Vec<[u8; 32]> = Vec::new();
    let mut i: usize = 0;
    while i < strings.len()
        invariant
            i <= strings@.len(),
            strings_fit_32(strings@),
            buffers_of_strings(buffers@, strings@.take(i as int)),
        decreases strings@.len() - i,
    {
        let bytes = strings[i].as_str().as_bytes();
        let mut buf = [0u8; 32];
        assert(utf8(strings@[i as int]@).len() <= 32);
        assert(buf@ =~= zeros(32));
        copy_prefix(&mut buf, bytes);
        buffers.push(buf);
        i = i + 1;
        assert(strings@.take(i as int).drop_last() =~= strings@.take(i - 1));
    }
    assert(strings@.take(i as int) =~= strings@);
    buffers
}

/// The first check that rejects the registration, if any.
pub open spec fn register_agent_error(
    name: Seq<char>,
    capabilities: Seq<String>,
    stake_amount: u64,
) -> Option<ColosseumError> {
    if utf8(name).len() > 32 {
        Some(ColosseumError::NameTooLong)
    } else if capabilities.len() > 10 {
        Some(ColosseumError::TooManyCapabilities)
    } else if stake_amount < 10_000_000 {
        Some(ColosseumError::StakeTooLow)
    } else {
        None
    }
}

/// The record of a newly registered agent: active Scout, unrated, without
/// jobs, NFT, World ID or Swig wallet.
pub open spec fn is_registered_agent(
    agent: Agent,
    authority: Pubkey,
    name: Seq<char>,
    capabilities: Seq<String>,
    stake_amount: u64,
    now: i64,
    bump: u8,
) -> bool {
    &&& agent.authority == authority
    &&& agent.name@ == with_prefix(zeros(32), utf8(name))
    &&& agent.name_len == utf8(name).len()
    &&& buffers_of_strings(agent.capabilities@, capabilities)
    &&& agent.capability_count == capabilities.len()
    &&& agent.stake == stake_amount
    &&& agent.reputation_score == 0
    &&& agent.reputation_count == 0
    &&& agent.jobs_completed == 0
    &&& agent.jobs_failed == 0
    &&& agent.active
    &&& agent.tier == 0
    &&& agent.reputation_nft_mint.is_zero()
    &&& agent.registered_at == now
    &&& agent.bump == bump
    &&& agent.world_id_hash@ == zeros(32)
    &&& !agent.world_id_verified
    &&& agent.swig_wallet.is_zero()
}

/// Register an agent with a name (at most 32 bytes), at most 10
/// capabilities (each at most 32 bytes) and a stake of at least 0.01 SOL.
/// The caller then moves `stake_amount` lamports from the authority into
/// the agent's record.
pub fn register_agent(
    authority: Pubkey,
    name: String,
    capabilities: Vec<String>,
    stake_amount: u64,
    now: i64,
    bump: u8,
) -> (r: Result<Agent, ColosseumError>)
    requires
        register_agent_error(name@, capabilities@, stake_amount) is None ==> strings_fit_32(
            capabilities@,
        ),
    ensures
        match register_agent_error(name@, capabilities@, stake_amount) {
            Some(e) => r == Err::<Agent, ColosseumError>(e),
            None => r is Ok && is_registered_agent(
                r->Ok_0,
                authority,
                name@,
                capabilities@,
                stake_amount,
                now,
                bump,
            ),
        },
{
    let name_bytes = name.as_str().as_bytes();
    if name_bytes.len() > 32 {
        return Err(ColosseumError::NameTooLong);
    }
    if capabilities.len() > 10 {
        return Err(ColosseumError::TooManyCapabilities);
    }
    // 0.01 SOL
    if stake_amount < 10_000_000 {
        return Err(ColosseumError::StakeTooLow);
    }
    let mut agent_name = [0u8; 32];
    assert(agent_name@ =~= zeros(32));
    copy_prefix(&mut agent_name, name_bytes);
    let caps = string_buffers(&capabilities);
    let mut world_id_hash = [0u8; 32];
    assert(world_id_hash@ =~= zeros(32));
    Ok(
        Agent {
            authority,
            name: agent_name,
            name_len: name_bytes.len() as u8,
            capabilities: caps,
            capability_count: capabilities.len() as u8,
            stake: stake_amount,
            reputation_score: 0,
            reputation_count: 0,
            jobs_completed: 0,
            jobs_failed: 0,
            active: true,
            tier: 0,
            reputation_nft_mint: Pubkey::zero(),
            registered_at: now,
            bump,
            world_id_hash,
            world_id_verified: false,
            swig_wallet: Pubkey::zero(),
        },
    )
}

/// Replace the agent's capabilities and/or set whether it is active.
/// Each new capability must fit 32 bytes.
pub fn update_agent(agent: &mut Agent, capabilities: Option<Vec<String>>, active: Option<bool>)
    requires
        capabilities matches Some(caps) ==> strings_fit_32(caps@),
    ensures
        match capabilities {
            Some(caps) => buffers_of_strings(final(agent).capabilities@, caps@)
                && final(agent).capability_count == caps@.len() as u8,
            None => final(agent).capabilities == old(agent).capabilities
                && final(agent).capability_count == old(agent).capability_count,
        },
        final(agent).active == (match active {
            Some(a) => a,
            None => old(agent).active,
        }),
        *final(agent) == (Agent {
            capabilities: final(agent).capabilities,
            capability_count: final(agent).capability_count,
            active: final(agent).active,
            ..*old(agent)
        }),
{
    if let Some(caps) = capabilities {
        agent.capabilities = string_buffers(&caps);
        agent.capability_count = agent.capabilities.len() as u8;
    }
    if let Some(is_active) = active {
        agent.active = is_active;
    }
}

/// The first check that rejects the verification, if any.
pub open spec fn verify_agent_error(authority: Pubkey, agent: Agent) -> Option<ColosseumError> {
    if authority != agent.authority {
        Some(ColosseumError::Unauthorized)
    } else if agent.world_id_verified {
        Some(ColosseumError::AlreadyVerified)
    } else {
        None
    }
}

/// The authority records the agent's World ID hash and Swig wallet, once.
pub fn verify_agent(
    authority: Pubkey,
    agent: &mut Agent,
    world_id_hash: [u8; 32],
    swig_wallet: Pubkey,
) -> (r: Result<(), ColosseumError>)
    ensures
        r == outcome(verify_agent_error(authority, *old(agent))),
        r is Err ==> *final(agent) == *old(agent),
        r is Ok ==> *final(agent) == (Agent {
            world_id_hash,
            swig_wallet,
            world_id_verified: true,
            ..*old(agent)
        }),
{
    // Only the authority (owner) may trigger verification
    if authority != agent.authority {
        return Err(ColosseumError::Unauthorized);
    }
    // Verify only once
    if agent.world_id_verified {
        return Err(ColosseumError::AlreadyVerified);
    }
    agent.world_id_hash = world_id_hash;
    agent.swig_wallet = swig_wallet;
    agent.world_id_verified = true;
    Ok(())
}

} // verus!
