use vstd::prelude::*;
use vstd::string::StringExecFns;

use crate::pubkey::Pubkey;

verus! {

/// Reputation tier levels
#[derive(Clone, Copy, Debug, PartialEq, Eq, Structural)]
pub enum ReputationTier {
    Scout,  // 0.00 – 1.99 average rating
    Rookie,  // 2.00 – 3.49
    Pro,  // 3.50 – 4.49
    Legend,  // 4.50 – 5.00
}

/// The tier of an average rating scaled by 100 (450 = 4.50).
pub open spec fn spec_tier_from_average(avg: u64) -> ReputationTier {
    if avg <= 199 {
        ReputationTier::Scout
    } else if avg <= 349 {
        ReputationTier::Rookie
    } else if avg <= 449 {
        ReputationTier::Pro
    } else {
        ReputationTier::Legend
    }
}

/// The display name of a tier.
pub open spec fn tier_name(t: ReputationTier) -> Seq<char> {
    match t {
        ReputationTier::Scout => "Scout"@,
        ReputationTier::Rookie => "Rookie"@,
        ReputationTier::Pro => "Pro"@,
        ReputationTier::Legend => "Legend"@,
    }
}

impl ReputationTier {
    pub fn from_average(avg: u64) -> (t: Self)
        ensures
            t == spec_tier_from_average(avg),
    {
        match avg {
            0..=199 => ReputationTier::Scout,
            200..=349 => ReputationTier::Rookie,
            350..=449 => ReputationTier::Pro,
            _ => ReputationTier::Legend,
        }
    }

    pub fn to_string(&self) -> (s: &str)
        ensures
            s@ == tier_name(*self),
    {
        match self {
            ReputationTier::Scout => "Scout",
            ReputationTier::Rookie => "Rookie",
            ReputationTier::Pro => "Pro",
            ReputationTier::Legend => "Legend",
        }
    }

    /// Metaplex Core asset name for the soulbound NFT
    pub fn nft_name(&self) -> (s: String)
        ensures
            s@ == "Agent Reputation: "@ + tier_name(*self),
    {
        String::from_str("Agent Reputation: ").concat(self.to_string())
    }
}

/// Record of a single rating
#[derive(Clone, Copy, Debug)]
pub struct RatingAccount {
    /// The job this rating is for
    pub job_id: u64,
    /// The agent being rated
    pub agent: Pubkey,
    /// The rater
    pub rater: Pubkey,
    /// Rating score (100-500, representing 1.00-5.00 with 2 decimal precision)
    pub score: u64,
    /// Optional review text (max 256 bytes)
    pub review: [u8; 256],
    pub review_len: u16,
    /// Timestamp when the rating was created
    pub created_at: i64,
    /// Address bump
    pub bump: u8,
}

/// Reputation NFT metadata for the soulbound Metaplex Core asset
#[derive(Clone, Copy, Debug)]
pub struct ReputationNft {
    /// The agent this NFT belongs to
    pub agent: Pubkey,
    /// Current tier
    pub tier: ReputationTier,
    /// Total number of ratings
    pub total_ratings: u32,
    /// Sum of all rating scores
    pub total_score_sum: u64,
    /// The Metaplex Core asset ID
    pub asset_id: Pubkey,
    /// Timestamp when the NFT was first minted
    pub minted_at: i64,
    /// Timestamp of last tier update
    pub updated_at: i64,
    /// Address bump
    pub bump: u8,
}

} // verus!
