use vstd::prelude::*;

use crate::job_escrow::state::JobAccount;
use crate::pubkey::Pubkey;
use crate::reputation::errors::ReputationError;
use crate::reputation::state::{RatingAccount, ReputationNft};

verus! {

/// Minimum rating score (1.00 = 100)
pub const MIN_RATING: u64 = 100;

/// Maximum rating score (5.00 = 500)
pub const MAX_RATING: u64 = 500;

/// Whether `who` is the poster or the worker of `job`.
pub open spec fn is_job_participant(who: Pubkey, job: JobAccount) -> bool {
    who == job.poster || who == job.worker
}

/// The first check that rejects the rating, if any. `job` is the escrow
/// record of the rated job `job_id`.
pub open spec fn rate_agent_error(
    rater: Pubkey,
    job: JobAccount,
    job_id: u64,
    agent: Pubkey,
    score: u64,
    review_len: u16,
) -> Option<ReputationError> {
    if !(MIN_RATING <= score && score <= MAX_RATING) {
        Some(ReputationError::InvalidRatingScore)
    } else if rater == agent {
        Some(ReputationError::SelfRating)
    } else if job.job_id != job_id || !is_job_participant(rater, job) {
        Some(ReputationError::NotJobParticipant)
    } else if review_len > 256 {
        Some(ReputationError::ReviewTooLong)
    } else {
        None
    }
}

/// The agent's totals after one more rating of `score` at `now`.
pub open spec fn rated(nft: ReputationNft, score: u64, now: i64) -> ReputationNft {
    ReputationNft {
        total_ratings: (nft.total_ratings + 1) as u32,
        total_score_sum: (nft.total_score_sum + score) as u64,
        updated_at: now,
        ..nft
    }
}

/// Rate an agent after a job (score 100-500 = 1.00-5.00): the rating is
/// recorded and added to the agent's totals. Only the job's poster or
/// worker rates, and nobody rates themselves. `job` is the escrow record of
/// job `job_id`.
pub fn handler(
    rater: Pubkey,
    reputation_nft: &mut ReputationNft,
    job: &JobAccount,
    job_id: u64,
    agent: Pubkey,
    score: u64,
    review: [u8; 256],
    review_len: u16,
    now: i64,
    bump: u8,
) -> (r: Result<RatingAccount, ReputationError>)
    requires
        rate_agent_error(rater, *job, job_id, agent, score, review_len) is None ==> {
            &&& old(reputation_nft).total_ratings < u32::MAX
            &&& old(reputation_nft).total_score_sum + score <= u64::MAX
        },
    ensures
        match rate_agent_error(rater, *job, job_id, agent, score, review_len) {
            Some(e) => r == Err::<RatingAccount, ReputationError>(e)
                && *final(reputation_nft) == *old(reputation_nft),
            None => {
                &&& r == Ok::<RatingAccount, ReputationError>(
                    RatingAccount {
                        job_id,
                        agent,
                        rater,
                        score,
                        review,
                        review_len,
                        created_at: now,
                        bump,
                    },
                )
                &&& *final(reputation_nft) == rated(*old(reputation_nft), score, now)
            },
        },
{
    if !(score >= MIN_RATING && score <= MAX_RATING) {
        return Err(ReputationError::InvalidRatingScore);
    }
    if rater == agent {
        return Err(ReputationError::SelfRating);
    }
    // Only the poster or the worker of the rated job may rate
    if job.job_id != job_id || (rater != job.poster && rater != job.worker) {
        return Err(ReputationError::NotJobParticipant);
    }
    if review_len > 256 {
        return Err(ReputationError::ReviewTooLong);
    }
    let rating = RatingAccount {
        job_id,
        agent,
        rater,
        score,
        review,
        review_len,
        created_at: now,
        bump,
    };
    // Update reputation totals
    reputation_nft.total_ratings = reputation_nft.total_ratings + 1;
    reputation_nft.total_score_sum = reputation_nft.total_score_sum + score;
    reputation_nft.updated_at = now;
    Ok(rating)
}

} // verus!
