use vstd::prelude::*;

use crate::job_escrow::state::JobAccount;
use crate::pubkey::Pubkey;
use crate::reputation::instructions::mint_nft::{mint_nft_error, METAPLEX_CORE_PROGRAM};
use crate::reputation::instructions::rate_agent::{is_job_participant, rate_agent_error, rated, MAX_RATING, MIN_RATING};
use crate::reputation::instructions::update_reputation::{
    average_rating, earned_tier, update_reputation_error,
};
use crate::reputation::state::{spec_tier_from_average, ReputationNft, ReputationTier};

verus! {

/// The totals come from valid ratings: their sum lies between 100 and 500
/// times their number.
pub open spec fn totals_from_valid_ratings(nft: ReputationNft) -> bool {
    MIN_RATING * nft.total_ratings <= nft.total_score_sum <= MAX_RATING * nft.total_ratings
}

/// Accepted ratings keep the totals those of valid ratings.
pub proof fn rating_keeps_totals_valid(
    nft: ReputationNft,
    rater: Pubkey,
    job: JobAccount,
    job_id: u64,
    agent: Pubkey,
    score: u64,
    review_len: u16,
    now: i64,
)
    requires
        totals_from_valid_ratings(nft),
        rate_agent_error(rater, job, job_id, agent, score, review_len) is None,
        nft.total_ratings < u32::MAX,
        nft.total_score_sum + score <= u64::MAX,
    ensures
        totals_from_valid_ratings(rated(nft, score, now)),
{
}

/// The average of valid ratings is itself a valid rating, from 1.00 to 5.00.
pub proof fn average_of_valid_ratings_is_valid(nft: ReputationNft)
    requires
        totals_from_valid_ratings(nft),
        nft.total_ratings > 0,
    ensures
        MIN_RATING <= average_rating(nft) <= MAX_RATING,
{
    let n = nft.total_ratings as int;
    let s = nft.total_score_sum as int;
    assert(100 * n <= s <= 500 * n);
    assert(100 <= s / n <= 500) by (nonlinear_arith)
        requires
            100 * n <= s <= 500 * n,
            n > 0,
    {
        vstd::arithmetic::div_mod::lemma_div_is_ordered(100 * n, s, n);
        vstd::arithmetic::div_mod::lemma_div_is_ordered(s, 500 * n, n);
        vstd::arithmetic::div_mod::lemma_div_multiples_vanish(100, n);
        vstd::arithmetic::div_mod::lemma_div_multiples_vanish(500, n);
    }
}

/// The rank of a tier, from Scout (0) to Legend (3).
pub open spec fn tier_rank(t: ReputationTier) -> int {
    match t {
        ReputationTier::Scout => 0,
        ReputationTier::Rookie => 1,
        ReputationTier::Pro => 2,
        ReputationTier::Legend => 3,
    }
}

/// A higher average rating never gives a lower tier.
pub proof fn tier_grows_with_average(low: u64, high: u64)
    requires
        low <= high,
    ensures
        tier_rank(spec_tier_from_average(low)) <= tier_rank(spec_tier_from_average(high)),
{
}

/// Recalculating a tier twice changes nothing the second time: the earned
/// tier depends on the totals alone.
pub proof fn recalculation_is_stable(nft: ReputationNft, now: i64)
    requires
        nft.total_ratings > 0,
    ensures
        earned_tier(ReputationNft { tier: earned_tier(nft), updated_at: now, ..nft })
            == earned_tier(nft),
{
}

/// A reputation NFT is minted once: after a mint that records a non-zero
/// agent key, every further mint is refused.
pub proof fn nft_mints_once(
    nft: ReputationNft,
    agent: Pubkey,
    collection: Pubkey,
    metaplex_program: Pubkey,
    now: i64,
)
    requires
        mint_nft_error(nft, collection, metaplex_program) is None,
        !agent.is_zero(),
    ensures
        mint_nft_error(
            ReputationNft {
                tier: earned_tier(nft),
                asset_id: agent,
                minted_at: now,
                updated_at: now,
                ..nft
            },
            collection,
            metaplex_program,
        ) is Some,
{
}

/// Only the parties of a job rate for it, and never themselves: an
/// accepted rating comes from the job's poster or worker and is about
/// someone else.
pub proof fn only_job_parties_rate_others(
    rater: Pubkey,
    job: JobAccount,
    job_id: u64,
    agent: Pubkey,
    score: u64,
    review_len: u16,
)
    requires
        rate_agent_error(rater, job, job_id, agent, score, review_len) is None,
    ensures
        is_job_participant(rater, job),
        job.job_id == job_id,
        rater != agent,
{
}

/// Exactly when a rating is accepted: a score from 100 to 500, from the
/// poster or the worker of the job with that id, about someone other than
/// the rater, with a review of at most 256 bytes. The rating adds one to
/// the count and the score to the sum, and leaves the tier and the asset as
/// they were.
pub proof fn rating_accepted_exactly_when(
    rater: Pubkey,
    job: JobAccount,
    job_id: u64,
    agent: Pubkey,
    score: u64,
    review_len: u16,
    nft: ReputationNft,
    now: i64,
)
    ensures
        rate_agent_error(rater, job, job_id, agent, score, review_len) is None <==> {
            &&& 100 <= score <= 500
            &&& rater != agent
            &&& job.job_id == job_id
            &&& rater == job.poster || rater == job.worker
            &&& review_len <= 256
        },
        nft.total_ratings < u32::MAX && nft.total_score_sum + score <= u64::MAX ==> {
            &&& rated(nft, score, now).total_ratings == nft.total_ratings + 1
            &&& rated(nft, score, now).total_score_sum == nft.total_score_sum + score
            &&& rated(nft, score, now).tier == nft.tier
            &&& rated(nft, score, now).asset_id == nft.asset_id
            &&& rated(nft, score, now).updated_at == now
        },
{
}

/// The tier of a rated agent follows its average rating (the score sum
/// divided by the number of ratings, rounded down, on the 100-500 scale):
/// Scout below 200, Rookie from 200 below 350, Pro from 350 below 450, and
/// Legend from 450.
pub proof fn tier_follows_average(nft: ReputationNft)
    requires
        nft.total_ratings > 0,
    ensures
        ({
            let avg = nft.total_score_sum as int / nft.total_ratings as int;
            &&& earned_tier(nft) == ReputationTier::Scout <==> avg < 200
            &&& earned_tier(nft) == ReputationTier::Rookie <==> 200 <= avg < 350
            &&& earned_tier(nft) == ReputationTier::Pro <==> 350 <= avg < 450
            &&& earned_tier(nft) == ReputationTier::Legend <==> avg >= 450
        }),
{
}

/// Exactly when a recalculation is accepted: the agent has been rated.
pub proof fn update_accepted_exactly_when(nft: ReputationNft)
    ensures
        update_reputation_error(nft) is None <==> nft.total_ratings > 0,
{
}

/// Exactly when a mint is accepted: the agent has been rated, has no asset
/// yet, and both the collection and the program named are Metaplex Core.
pub proof fn mint_accepted_exactly_when(
    nft: ReputationNft,
    collection: Pubkey,
    metaplex_program: Pubkey,
)
    ensures
        mint_nft_error(nft, collection, metaplex_program) is None <==> {
            &&& nft.asset_id.is_zero()
            &&& collection.bytes == METAPLEX_CORE_PROGRAM
            &&& metaplex_program.bytes == METAPLEX_CORE_PROGRAM
            &&& nft.total_ratings > 0
        },
{
}

} // verus!
