use vstd::prelude::*;

use crate::dispute_resolver::errors::DisputeResolverError;
use crate::dispute_resolver::state::{
    DisputeAccount, DisputeStatus, EvidenceAccount, MAX_EVIDENCE_LENGTH, MAX_EVIDENCE_URL_LENGTH,
};
use crate::pubkey::Pubkey;

verus! {

/// Whether the dispute still accepts evidence and a resolution.
pub open spec fn is_pending(status: DisputeStatus) -> bool {
    status == DisputeStatus::Open || status == DisputeStatus::UnderReview
}

/// The first check that rejects the evidence, if any.
pub open spec fn submit_evidence_error(
    submitter: Pubkey,
    dispute: DisputeAccount,
    content_len: u16,
    url_len: u16,
) -> Option<DisputeResolverError> {
    if !is_pending(dispute.status) {
        Some(DisputeResolverError::InvalidDisputeStatus)
    } else if content_len > MAX_EVIDENCE_LENGTH {
        Some(DisputeResolverError::EvidenceContentTooLong)
    } else if url_len > MAX_EVIDENCE_URL_LENGTH {
        Some(DisputeResolverError::EvidenceUrlTooLong)
    } else if submitter != dispute.poster && submitter != dispute.worker {
        Some(DisputeResolverError::NotParticipant)
    } else if dispute.resolved {
        Some(DisputeResolverError::AlreadyResolved)
    } else {
        None
    }
}

/// The status after evidence arrives: an open dispute goes under review.
pub open spec fn status_after_evidence(status: DisputeStatus) -> DisputeStatus {
    if status == DisputeStatus::Open {
        DisputeStatus::UnderReview
    } else {
        status
    }
}

/// A party to the dispute submits evidence; the dispute moves under review.
pub fn handler(
    submitter: Pubkey,
    dispute_key: Pubkey,
    dispute_account: &mut DisputeAccount,
    _dispute_id: u64,
    content: [u8; 256],
    content_len: u16,
    url: [u8; 256],
    url_len: u16,
    now: i64,
    bump: u8,
) -> (r: Result<EvidenceAccount, DisputeResolverError>)
    ensures
        match submit_evidence_error(submitter, *old(dispute_account), content_len, url_len) {
            Some(e) => r == Err::<EvidenceAccount, DisputeResolverError>(e)
                && *final(dispute_account) == *old(dispute_account),
            None => {
                &&& r == Ok::<EvidenceAccount, DisputeResolverError>(
                    EvidenceAccount {
                        dispute: dispute_key,
                        submitter,
                        content,
                        content_len,
                        url,
                        url_len,
                        created_at: now,
                        bump,
                    },
                )
                &&& *final(dispute_account) == (DisputeAccount {
                    status: status_after_evidence(old(dispute_account).status),
                    ..*old(dispute_account)
                })
            },
        },
{
    match dispute_account.status {
        DisputeStatus::Open | DisputeStatus::UnderReview => {},
        DisputeStatus::Resolved => {
            return Err(DisputeResolverError::InvalidDisputeStatus);
        },
    }
    if content_len as usize > MAX_EVIDENCE_LENGTH {
        return Err(DisputeResolverError::EvidenceContentTooLong);
    }
    if url_len as usize > MAX_EVIDENCE_URL_LENGTH {
        return Err(DisputeResolverError::EvidenceUrlTooLong);
    }
    // Only poster or worker can submit evidence
    if submitter != dispute_account.poster && submitter != dispute_account.worker {
        return Err(DisputeResolverError::NotParticipant);
    }
    if dispute_account.resolved {
        return Err(DisputeResolverError::AlreadyResolved);
    }
    let evidence = EvidenceAccount {
        dispute: dispute_key,
        submitter,
        content,
        content_len,
        url,
        url_len,
        created_at: now,
        bump,
    };
    // Move to under review once evidence is submitted
    if dispute_account.status == DisputeStatus::Open {
        dispute_account.status = DisputeStatus::UnderReview;
    }
    Ok(evidence)
}

} // verus!
