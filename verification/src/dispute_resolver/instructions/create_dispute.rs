use vstd::prelude::*;

use crate::dispute_resolver::errors::DisputeResolverError;
use crate::dispute_resolver::state::{
    DisputeAccount, DisputeCounter, DisputeStatus, MAX_REASON_LENGTH,
};
use crate::bytes::zeros;
use crate::job_escrow::state::JobAccount;
use crate::pubkey::Pubkey;

verus! {

/// The counter as the instruction sees it: a fresh counter starts at 1.
pub open spec fn normalized_dispute_count(counter: DisputeCounter) -> u64 {
    if counter.count == 0 { 1 } else { counter.count }
}

/// The first check that rejects the dispute, if any. `job_record` is the
/// escrow record found at `job_record_key`, and `job` is the job named by
/// the dispute.
pub open spec fn create_dispute_error(
    initiator: Pubkey,
    poster: Pubkey,
    worker: Pubkey,
    counter: DisputeCounter,
    job: Pubkey,
    job_record_key: Pubkey,
    job_record: JobAccount,
    reason_len: u16,
) -> Option<DisputeResolverError> {
    if job_record_key != job {
        Some(DisputeResolverError::JobNotFound)
    } else if poster != job_record.poster || worker != job_record.worker {
        Some(DisputeResolverError::NotParticipant)
    } else if reason_len > MAX_REASON_LENGTH {
        Some(DisputeResolverError::ReasonTooLong)
    } else if initiator != poster && initiator != worker {
        Some(DisputeResolverError::NotParticipant)
    } else if normalized_dispute_count(counter) == u64::MAX {
        Some(DisputeResolverError::CounterOverflow)
    } else {
        None
    }
}

/// The record of a newly opened dispute: open, unresolved, without outcome
/// and with an empty resolution.
pub open spec fn is_new_dispute(
    dispute: DisputeAccount,
    initiator: Pubkey,
    poster: Pubkey,
    worker: Pubkey,
    job: Pubkey,
    reason: [u8; 512],
    reason_len: u16,
    now: i64,
    bump: u8,
) -> bool {
    &&& dispute.job == job
    &&& dispute.initiator == initiator
    &&& dispute.poster == poster
    &&& dispute.worker == worker
    &&& dispute.reason == reason
    &&& dispute.reason_len == reason_len
    &&& dispute.resolution@ == zeros(1024)
    &&& dispute.resolution_len == 0
    &&& dispute.outcome is None
    &&& dispute.status == DisputeStatus::Open
    &&& !dispute.resolved
    &&& dispute.created_at == now
    &&& dispute.resolved_at == 0
    &&& dispute.bump == bump
}

/// Create a new dispute for a job; `poster` and `worker` must be the ones
/// recorded in the job's escrow record `job_record` (found at
/// `job_record_key`, which must be `job`), and the initiator must be one of
/// them. The dispute counter is advanced.
pub fn handler(
    initiator: Pubkey,
    poster: Pubkey,
    worker: Pubkey,
    dispute_counter: &mut DisputeCounter,
    job: Pubkey,
    job_record_key: Pubkey,
    job_record: &JobAccount,
    reason: [u8; 512],
    reason_len: u16,
    now: i64,
    dispute_bump: u8,
    counter_bump: u8,
) -> (r: Result<DisputeAccount, DisputeResolverError>)
    ensures
        match create_dispute_error(
            initiator,
            poster,
            worker,
            *old(dispute_counter),
            job,
            job_record_key,
            *job_record,
            reason_len,
        ) {
            Some(e) => r == Err::<DisputeAccount, DisputeResolverError>(e)
                && *final(dispute_counter) == *old(dispute_counter),
            None => {
                &&& r is Ok
                &&& is_new_dispute(
                    r->Ok_0,
                    initiator,
                    poster,
                    worker,
                    job,
                    reason,
                    reason_len,
                    now,
                    dispute_bump,
                )
                &&& final(dispute_counter).count == normalized_dispute_count(*old(dispute_counter))
                    + 1
                &&& final(dispute_counter).bump == (if old(dispute_counter).count == 0 {
                    counter_bump
                } else {
                    old(dispute_counter).bump
                })
            },
        },
{
    if job_record_key != job {
        return Err(DisputeResolverError::JobNotFound);
    }
    // The parties are those recorded for the job
    if poster != job_record.poster || worker != job_record.worker {
        return Err(DisputeResolverError::NotParticipant);
    }
    if reason_len as usize > MAX_REASON_LENGTH {
        return Err(DisputeResolverError::ReasonTooLong);
    }
    // The initiator must be either the poster or the worker
    if initiator != poster && initiator != worker {
        return Err(DisputeResolverError::NotParticipant);
    }
    let dispute = DisputeAccount {
        job,
        initiator,
        poster,
        worker,
        reason,
        reason_len,
        resolution: [0u8; 1024],
        resolution_len: 0,
        outcome: None,
        status: DisputeStatus::Open,
        resolved: false,
        created_at: now,
        resolved_at: 0,
        bump: dispute_bump,
    };
    let mut counter = *dispute_counter;
    if counter.count == 0 {
        counter.count = 1;
        counter.bump = counter_bump;
    }
    match counter.count.checked_add(1) {
        Some(next) => {
            counter.count = next;
        },
        None => {
            return Err(DisputeResolverError::CounterOverflow);
        },
    }
    *dispute_counter = counter;
    assert(dispute.resolution@ =~= zeros(1024));
    Ok(dispute)
}

} // verus!
