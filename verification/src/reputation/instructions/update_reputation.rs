use vstd::prelude::*;

use crate::outcome::outcome;
use crate::reputation::errors::ReputationError;
use crate::reputation::state::{spec_tier_from_average, ReputationNft, ReputationTier};

verus! {

/// The average rating of an agent with at least one rating, rounded down.
pub open spec fn average_rating(nft: ReputationNft) -> u64
    recommends
        nft.total_ratings > 0,
{
    (nft.total_score_sum / nft.total_ratings as u64) as u64
}

/// The tier that the agent's current totals earn.
pub open spec fn earned_tier(nft: ReputationNft) -> ReputationTier {
    spec_tier_from_average(average_rating(nft))
}

/// The first check that rejects the update, if any.
pub open spec fn update_reputation_error(nft: ReputationNft) -> Option<ReputationError> {
    if nft.total_ratings == 0 {
        Some(ReputationError::AgentNotFound)
    } else {
        None
    }
}

/// Recalculate an agent's tier from its average rating.
pub fn handler(reputation_nft: &mut ReputationNft, now: i64) -> (r: Result<(), ReputationError>)
    ensures
        r == outcome(update_reputation_error(*old(reputation_nft))),
        r is Err ==> *final(reputation_nft) == *old(reputation_nft),
        r is Ok ==> *final(reputation_nft) == (ReputationNft {
            tier: earned_tier(*old(reputation_nft)),
            updated_at: now,
            ..*old(reputation_nft)
        }),
{
    if reputation_nft.total_ratings == 0 {
        return Err(ReputationError::AgentNotFound);
    }
    // Recalculate average and determine new tier
    let average = reputation_nft.total_score_sum / reputation_nft.total_ratings as u64;
    let new_tier = ReputationTier::from_average(average);
    reputation_nft.tier = new_tier;
    reputation_nft.updated_at = now;
    Ok(())
}

} // verus!
