use vstd::prelude::*;

use crate::dispute_resolver::errors::DisputeResolverError;
use crate::dispute_resolver::instructions::submit_evidence::is_pending;
use crate::dispute_resolver::state::{
    DisputeAccount, DisputeStatus, ResolutionOutcome, MAX_RESOLUTION_LENGTH,
};
use crate::outcome::outcome;
use crate::pubkey::Pubkey;

verus! {

/// The resolver authority — a DAO multisig or an authorized oracle
/// (`4kX9b9hytCTrC6qikjVpnWYrvDK7NG97qCUDUTk9fMmn`).
pub const RESOLVER_AUTHORITY: [u8; 32] = [
    55, 185, 31, 198, 0, 208, 61, 26, 66, 127, 29, 46, 251, 77, 141, 205, 255, 99, 105, 183, 199,
    110, 206, 240, 153, 41, 207, 60, 185, 227, 17, 69,
];

/// Whether an outcome is well formed: a split gives the poster at most
/// 10000 basis points.
pub open spec fn valid_outcome(o: ResolutionOutcome) -> bool {
    match o {
        ResolutionOutcome::Split { poster_share_bps } => poster_share_bps <= 10000,
        _ => true,
    }
}

/// The first check that rejects the resolution, if any.
pub open spec fn resolve_dispute_error(
    resolver: Pubkey,
    dispute: DisputeAccount,
    resolution_len: u16,
    resolution_outcome: ResolutionOutcome,
) -> Option<DisputeResolverError> {
    if resolver != (Pubkey { bytes: RESOLVER_AUTHORITY }) {
        Some(DisputeResolverError::NotResolver)
    } else if resolution_len > MAX_RESOLUTION_LENGTH {
        Some(DisputeResolverError::ResolutionTooLong)
    } else if !is_pending(dispute.status) {
        Some(DisputeResolverError::InvalidDisputeStatus)
    } else if dispute.resolved {
        Some(DisputeResolverError::AlreadyResolved)
    } else if !valid_outcome(resolution_outcome) {
        Some(DisputeResolverError::InvalidSplitPercentage)
    } else {
        None
    }
}

/// The resolver authority records the resolution and outcome of a pending
/// dispute.
pub fn handler(
    resolver: Pubkey,
    dispute_account: &mut DisputeAccount,
    resolution: [u8; 1024],
    resolution_len: u16,
    resolution_outcome: ResolutionOutcome,
    now: i64,
) -> (r: Result<(), DisputeResolverError>)
    ensures
        r == outcome(
            resolve_dispute_error(resolver, *old(dispute_account), resolution_len, resolution_outcome),
        ),
        r is Err ==> *final(dispute_account) == *old(dispute_account),
        r is Ok ==> *final(dispute_account) == (DisputeAccount {
            resolution,
            resolution_len,
            outcome: Some(resolution_outcome),
            status: DisputeStatus::Resolved,
            resolved: true,
            resolved_at: now,
            ..*old(dispute_account)
        }),
{
    if resolver != (Pubkey { bytes: RESOLVER_AUTHORITY }) {
        return Err(DisputeResolverError::NotResolver);
    }
    if resolution_len as usize > MAX_RESOLUTION_LENGTH {
        return Err(DisputeResolverError::ResolutionTooLong);
    }
    match dispute_account.status {
        DisputeStatus::Open | DisputeStatus::UnderReview => {},
        DisputeStatus::Resolved => {
            return Err(DisputeResolverError::InvalidDisputeStatus);
        },
    }
    if dispute_account.resolved {
        return Err(DisputeResolverError::AlreadyResolved);
    }
    // Validate split outcome if applicable
    if let ResolutionOutcome::Split { poster_share_bps } = resolution_outcome {
        if poster_share_bps > 10000 {
            return Err(DisputeResolverError::InvalidSplitPercentage);
        }
    }
    dispute_account.resolution = resolution;
    dispute_account.resolution_len = resolution_len;
    dispute_account.outcome = Some(resolution_outcome);
    dispute_account.status = DisputeStatus::Resolved;
    dispute_account.resolved = true;
    dispute_account.resolved_at = now;
    Ok(())
}

} // verus!
