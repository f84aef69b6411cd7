use vstd::prelude::*;

use crate::pubkey::Pubkey;

verus! {

/// Maximum length for agent name (bytes)
pub const MAX_NAME_LENGTH: usize = 64;

/// Maximum length for capabilities list (bytes)
pub const MAX_CAPABILITIES_LENGTH: usize = 256;

/// Agent registration status
#[derive(Clone, Copy, Debug, PartialEq, Eq, Structural)]
pub enum AgentStatus {
    Active,
    Deactivated,
    PendingVerification,
}

impl AgentStatus {
    pub fn is_active(&self) -> (r: bool)
        ensures
            r == (*self == AgentStatus::Active),
    {
        *self == AgentStatus::Active
    }
}

/// Record of a registered AI agent
#[derive(Clone, Copy, Debug)]
pub struct AgentAccount {
    /// The wallet that owns and controls this agent
    pub owner: Pubkey,
    /// Human-readable agent name
    pub name: [u8; 64],
    /// Length of the name string
    pub name_len: u16,
    /// Capabilities / skills description
    pub capabilities: [u8; 256],
    /// Length of capabilities string
    pub capabilities_len: u16,
    /// Lamports staked by the agent (bond / security deposit)
    pub stake_lamports: u64,
    /// Total number of jobs completed
    pub jobs_completed: u32,
    /// Cumulative reputation score (sum of all ratings * 100 for precision)
    pub reputation_sum: u64,
    /// Whether World ID human verification has been passed
    pub world_id_verified: bool,
    /// Swig programmable wallet assigned to this agent
    pub swig_wallet: Pubkey,
    /// Metaplex Core asset holding the agent's identity; the zero key means
    /// that no identity is linked
    pub core_asset: Pubkey,
    /// Whether an agent is currently in good standing
    pub is_active: bool,
    /// Timestamp when the agent was registered
    pub created_at: i64,
    /// Timestamp of last update
    pub updated_at: i64,
    /// Address bump seed
    pub bump: u8,
}

/// Agent reputation tier
#[derive(Clone, Copy, Debug, PartialEq, Eq, Structural)]
pub enum AgentTier {
    Scout,  // 0.00 – 1.99
    Rookie,  // 2.00 – 3.49
    Pro,  // 3.50 – 4.49
    Legend,  // 4.50 – 5.00
}

/// The tier of an average reputation scaled by 100 (450 = 4.50 stars).
pub open spec fn tier_of_average(avg: u64) -> AgentTier {
    if avg <= 199 {
        AgentTier::Scout
    } else if avg <= 349 {
        AgentTier::Rookie
    } else if avg <= 449 {
        AgentTier::Pro
    } else {
        AgentTier::Legend
    }
}

impl AgentAccount {
    /// Average reputation scaled by 100, rounded down; zero without jobs.
    pub open spec fn spec_average_reputation(self) -> u64 {
        if self.jobs_completed == 0 {
            0
        } else {
            (self.reputation_sum / self.jobs_completed as u64) as u64
        }
    }

    /// Calculate average reputation score (scaled by 100, e.g. 450 = 4.50 stars)
    pub fn average_reputation(&self) -> (r: u64)
        ensures
            r == self.spec_average_reputation(),
    {
        if self.jobs_completed == 0 {
            0
        } else {
            self.reputation_sum / self.jobs_completed as u64
        }
    }

    /// Determine agent tier based on reputation
    pub fn tier(&self) -> (t: AgentTier)
        ensures
            t == tier_of_average(self.spec_average_reputation()),
    {
        let avg = self.average_reputation();
        match avg {
            0..=199 => AgentTier::Scout,
            200..=349 => AgentTier::Rookie,
            350..=449 => AgentTier::Pro,
            _ => AgentTier::Legend,
        }
    }
}

} // verus!
