use vstd::prelude::*;

use crate::outcome::outcome;
use crate::pubkey::Pubkey;
use crate::reputation::errors::ReputationError;
use crate::reputation::instructions::update_reputation::earned_tier;
use crate::reputation::state::{ReputationNft, ReputationTier};

verus! {

/// Metaplex Core program address
/// (`CoREENxT6tW1HoK8ypY1SxRMZTcVPm7R94rH4PZNhX7d`).
pub const METAPLEX_CORE_PROGRAM: [u8; 32] = [
    175, 84, 171, 16, 189, 151, 165, 66, 160, 158, 247, 179, 152, 137, 221, 12, 211, 148, 164,
    204, 233, 223, 166, 205, 201, 126, 190, 45, 35, 91, 167, 72,
];

/// The first check that rejects the mint, if any.
pub open spec fn mint_nft_error(
    nft: ReputationNft,
    collection: Pubkey,
    metaplex_program: Pubkey,
) -> Option<ReputationError> {
    if !nft.asset_id.is_zero() {
        Some(ReputationError::AlreadyMinted)
    } else if collection != (Pubkey { bytes: METAPLEX_CORE_PROGRAM }) {
        Some(ReputationError::MetaplexError)
    } else if metaplex_program != (Pubkey { bytes: METAPLEX_CORE_PROGRAM }) {
        Some(ReputationError::MetaplexError)
    } else if nft.total_ratings == 0 {
        Some(ReputationError::AgentNotFound)
    } else {
        None
    }
}

/// Mint the soulbound reputation NFT of a rated agent: its tier is
/// recalculated and the agent's key is recorded as the asset.
pub fn handler(
    reputation_nft: &mut ReputationNft,
    agent: Pubkey,
    collection: Pubkey,
    metaplex_program: Pubkey,
    now: i64,
) -> (r: Result<(), ReputationError>)
    ensures
        r == outcome(mint_nft_error(*old(reputation_nft), collection, metaplex_program)),
        r is Err ==> *final(reputation_nft) == *old(reputation_nft),
        r is Ok ==> *final(reputation_nft) == (ReputationNft {
            tier: earned_tier(*old(reputation_nft)),
            asset_id: agent,
            minted_at: now,
            updated_at: now,
            ..*old(reputation_nft)
        }),
{
    if !reputation_nft.asset_id.is_unset() {
        return Err(ReputationError::AlreadyMinted);
    }
    if collection != (Pubkey { bytes: METAPLEX_CORE_PROGRAM }) {
        return Err(ReputationError::MetaplexError);
    }
    if metaplex_program != (Pubkey { bytes: METAPLEX_CORE_PROGRAM }) {
        return Err(ReputationError::MetaplexError);
    }
    // Ensure reputation has been initialized
    if reputation_nft.total_ratings == 0 {
        return Err(ReputationError::AgentNotFound);
    }
    // Calculate current tier
    let average = reputation_nft.total_score_sum / reputation_nft.total_ratings as u64;
    let tier = ReputationTier::from_average(average);
    reputation_nft.tier = tier;
    // The agent's key stands for the asset id of the minted NFT.
    reputation_nft.asset_id = agent;
    reputation_nft.minted_at = now;
    reputation_nft.updated_at = now;
    Ok(())
}

} // verus!
