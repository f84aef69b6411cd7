use vstd::prelude::*;

use crate::bytes::{copy_prefix, utf8, with_prefix, zeros};
use crate::colosseum_programs::agent_registry::{tier_code, Agent, AgentTier};
use crate::colosseum_programs::errors::ColosseumError;
use crate::pubkey::Pubkey;

verus! {

/// Record of one rating of an agent.
#[derive(Clone, Copy, Debug)]
pub struct ReputationRecord {
    pub agent: Pubkey,
    pub rater: Pubkey,
    pub job_ref: [u8; 32],
    pub job_ref_len: u8,
    /// 1-5
    pub score: u8,
    pub review: [u8; 128],
    pub review_len: u8,
    pub timestamp: i64,
    pub bump: u8,
}

/// Simulated Metaplex Core NFT representing an agent's reputation tier.
#[derive(Clone, Copy, Debug)]
pub struct ReputationNft {
    /// The agent this NFT belongs to
    pub agent: Pubkey,
    /// The NFT mint address
    pub mint: Pubkey,
    /// Tier when NFT was minted (0=Scout,1=Rookie,2=Pro,3=Legend)
    pub tier_at_mint: u8,
    /// Jobs completed when NFT was minted
    pub jobs_at_mint: u32,
    /// When the NFT was created
    pub created_at: i64,
    pub bump: u8,
}

/// The tier that an agent's record earns:
///   Scout:  default, and always without ratings
///   Rookie: at least 3 jobs and an average rating of at least 3.0
///   Pro:    at least 10 jobs and an average rating of at least 4.0
///   Legend: at least 25 jobs and an average rating of at least 4.5
/// where the average rating is `reputation_score / reputation_count`.
pub open spec fn earned_tier(jobs_completed: u32, reputation_score: u32, reputation_count: u16) -> AgentTier {
    let jobs = jobs_completed as int;
    let score = reputation_score as int;
    let count = reputation_count as int;
    if count == 0 {
        AgentTier::Scout
    } else if jobs >= 25 && 2 * score >= 9 * count {
        AgentTier::Legend
    } else if jobs >= 10 && score >= 4 * count {
        AgentTier::Pro
    } else if jobs >= 3 && score >= 3 * count {
        AgentTier::Rookie
    } else {
        AgentTier::Scout
    }
}

/// Recalculate the agent tier code based on jobs completed and average
/// rating, with integer comparisons in place of averages.
pub fn recalculate_tier(jobs_completed: u32, reputation_score: u32, reputation_count: u16) -> (t:
    u8)
    ensures
        t == tier_code(earned_tier(jobs_completed, reputation_score, reputation_count)),
{
    if reputation_count == 0 {
        return 0;  // Scout — no ratings yet
    }
    // Legend: jobs_completed >= 25 AND avg_rating >= 4.5
    if jobs_completed >= 25 && (reputation_score as u64 * 2 >= reputation_count as u64 * 9) {
        return 3;
    }
    // Pro: jobs_completed >= 10 AND avg_rating >= 4.0
    if jobs_completed >= 10 && (reputation_score as u64 >= reputation_count as u64 * 4) {
        return 2;
    }
    // Rookie: jobs_completed >= 3 AND avg_rating >= 3.0
    if jobs_completed >= 3 && (reputation_score as u64 >= reputation_count as u64 * 3) {
        return 1;
    }
    0  // Scout
}

/// The first check that rejects the rating, if any.
pub open spec fn rate_agent_error(rater: Pubkey, agent: Agent, score: u8, review: Seq<char>) -> Option<
    ColosseumError,
> {
    if !(1 <= score && score <= 5) {
        Some(ColosseumError::InvalidScore)
    } else if rater == agent.authority {
        Some(ColosseumError::SelfRating)
    } else if utf8(review).len() > 128 {
        Some(ColosseumError::NameTooLong)
    } else {
        None
    }
}

/// The agent after one more rating of `score`: the score is added, the
/// count grows by one, and the tier is recalculated.
pub open spec fn rated_agent(agent: Agent, score: u8) -> Agent {
    let new_score = (agent.reputation_score + score) as u32;
    let new_count = (agent.reputation_count + 1) as u16;
    Agent {
        reputation_score: new_score,
        reputation_count: new_count,
        tier: tier_code(earned_tier(agent.jobs_completed, new_score, new_count)),
        ..agent
    }
}

/// Rate an agent from 1 to 5 with a review of at most 128 bytes; nobody
/// rates their own agent. `agent_key` is the address of `agent`'s record,
/// which also fills the record's job reference. `agent_pubkey` and
/// `job_ref` only locate the records.
pub fn rate_agent(
    rater: Pubkey,
    agent_key: Pubkey,
    agent: &mut Agent,
    agent_pubkey: Pubkey,
    job_ref: String,
    score: u8,
    review: String,
    now: i64,
    bump: u8,
) -> (r: Result<ReputationRecord, ColosseumError>)
    requires
        rate_agent_error(rater, *old(agent), score, review@) is None ==> {
            &&& old(agent).reputation_score + score <= u32::MAX
            &&& old(agent).reputation_count < u16::MAX
        },
    ensures
        match rate_agent_error(rater, *old(agent), score, review@) {
            Some(e) => r == Err::<ReputationRecord, ColosseumError>(e) && *final(agent) == *old(
                agent,
            ),
            None => {
                &&& r is Ok
                &&& r->Ok_0.agent == agent_key
                &&& r->Ok_0.rater == rater
                &&& r->Ok_0.job_ref == agent_key.bytes
                &&& r->Ok_0.job_ref_len == 0
                &&& r->Ok_0.score == score
                &&& r->Ok_0.review@ == with_prefix(zeros(128), utf8(review@))
                &&& r->Ok_0.review_len == utf8(review@).len()
                &&& r->Ok_0.timestamp == now
                &&& r->Ok_0.bump == bump
                &&& *final(agent) == rated_agent(*old(agent), score)
            },
        },
{
    if !(score >= 1 && score <= 5) {
        return Err(ColosseumError::InvalidScore);
    }
    if rater == agent.authority {
        return Err(ColosseumError::SelfRating);
    }
    let rev_bytes = review.as_str().as_bytes();
    if rev_bytes.len() > 128 {
        return Err(ColosseumError::NameTooLong);
    }
    let mut review_buf = [0u8; 128];
    assert(review_buf@ =~= zeros(128));
    copy_prefix(&mut review_buf, rev_bytes);
    let record = ReputationRecord {
        agent: agent_key,
        rater,
        job_ref: agent_key.bytes,
        job_ref_len: 0,
        score,
        review: review_buf,
        review_len: rev_bytes.len() as u8,
        timestamp: now,
        bump,
    };
    // Update agent cumulative score
    agent.reputation_score = agent.reputation_score + score as u32;
    agent.reputation_count = agent.reputation_count + 1;
    // Recalculate tier based on updated stats
    agent.tier = recalculate_tier(
        agent.jobs_completed,
        agent.reputation_score,
        agent.reputation_count,
    );
    Ok(record)
}

/// The first check that rejects the mint, if any.
pub open spec fn mint_reputation_nft_error(agent: Agent) -> Option<ColosseumError> {
    if agent.jobs_completed < 1 {
        Some(ColosseumError::AgentNotEligibleForNft)
    } else if !agent.reputation_nft_mint.is_zero() {
        Some(ColosseumError::NftAlreadyMinted)
    } else {
        None
    }
}

/// Mint the reputation NFT of an agent with at least one completed job and
/// no NFT yet: the NFT records the agent's tier and jobs, and the agent
/// records the mint. `agent_key` is the address of `agent`'s record.
pub fn mint_reputation_nft(
    agent_key: Pubkey,
    agent: &mut Agent,
    mint_key: Pubkey,
    now: i64,
    bump: u8,
) -> (r: Result<ReputationNft, ColosseumError>)
    ensures
        match mint_reputation_nft_error(*old(agent)) {
            Some(e) => r == Err::<ReputationNft, ColosseumError>(e) && *final(agent) == *old(agent),
            None => {
                &&& r == Ok::<ReputationNft, ColosseumError>(
                    ReputationNft {
                        agent: agent_key,
                        mint: mint_key,
                        tier_at_mint: old(agent).tier,
                        jobs_at_mint: old(agent).jobs_completed,
                        created_at: now,
                        bump,
                    },
                )
                &&& *final(agent) == (Agent { reputation_nft_mint: mint_key, ..*old(agent) })
            },
        },
{
    if agent.jobs_completed < 1 {
        return Err(ColosseumError::AgentNotEligibleForNft);
    }
    if !agent.reputation_nft_mint.is_unset() {
        return Err(ColosseumError::NftAlreadyMinted);
    }
    let rep_nft = ReputationNft {
        agent: agent_key,
        mint: mint_key,
        tier_at_mint: agent.tier,
        jobs_at_mint: agent.jobs_completed,
        created_at: now,
        bump,
    };
    // Point the agent record to this NFT mint
    agent.reputation_nft_mint = mint_key;
    Ok(rep_nft)
}

} // verus!
