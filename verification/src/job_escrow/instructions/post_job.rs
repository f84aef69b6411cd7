use vstd::prelude::*;

use crate::job_escrow::errors::JobEscrowError;
use crate::job_escrow::state::{
    EscrowVault, JobAccount, JobCounter, JobStatus, MAX_DELIVERABLE_LENGTH,
    MAX_DESCRIPTION_LENGTH, MAX_REQUIREMENTS_LENGTH,
};
use crate::bytes::zeros;
use crate::pubkey::Pubkey;

verus! {

/// The counter as the instruction sees it: a fresh counter starts at 1.
pub open spec fn normalized_count(counter: JobCounter) -> u64 {
    if counter.count == 0 { 1 } else { counter.count }
}

/// The first check that rejects the posting, if any.
pub open spec fn post_job_error(
    counter: JobCounter,
    job_id: u64,
    description_len: u16,
    requirements_len: u16,
    payment_lamports: u64,
    deadline: i64,
    now: i64,
) -> Option<JobEscrowError> {
    if description_len > MAX_DESCRIPTION_LENGTH {
        Some(JobEscrowError::DescriptionTooLong)
    } else if requirements_len > MAX_REQUIREMENTS_LENGTH {
        Some(JobEscrowError::RequirementsTooLong)
    } else if payment_lamports == 0 {
        Some(JobEscrowError::ZeroPayment)
    } else if deadline <= now {
        Some(JobEscrowError::InvalidDeadline)
    } else if job_id != normalized_count(counter) {
        Some(JobEscrowError::InvalidJobStatus)
    } else if normalized_count(counter) == u64::MAX {
        Some(JobEscrowError::CounterOverflow)
    } else {
        None
    }
}

/// The job record that a successful posting creates: open, unassigned,
/// with an empty deliverable, created and updated at `now`.
pub open spec fn is_posted_job(
    job: JobAccount,
    poster: Pubkey,
    job_id: u64,
    description: [u8; 512],
    description_len: u16,
    requirements: [u8; 1024],
    requirements_len: u16,
    payment_lamports: u64,
    deadline: i64,
    now: i64,
    job_bump: u8,
) -> bool {
    &&& job.job_id == job_id
    &&& job.poster == poster
    &&& job.worker.is_zero()
    &&& job.description == description
    &&& job.description_len == description_len
    &&& job.requirements == requirements
    &&& job.requirements_len == requirements_len
    &&& job.payment_lamports == payment_lamports
    &&& job.deadline == deadline
    &&& job.status == JobStatus::Open
    &&& job.deliverable@ == zeros(256)
    &&& job.deliverable_len == 0
    &&& job.created_at == now
    &&& job.updated_at == now
    &&& job.bump == job_bump
}

/// Post a new job: validate it, create its record and its vault holding the
/// payment, and advance the job counter. The caller then moves
/// `payment_lamports` from the poster into the vault.
pub fn handler(
    poster: Pubkey,
    job_account_key: Pubkey,
    job_counter: &mut JobCounter,
    job_id: u64,
    description: [u8; 512],
    description_len: u16,
    requirements: [u8; 1024],
    requirements_len: u16,
    payment_lamports: u64,
    deadline: i64,
    now: i64,
    job_bump: u8,
    counter_bump: u8,
    vault_bump: u8,
) -> (r: Result<(JobAccount, EscrowVault), JobEscrowError>)
    ensures
        match post_job_error(
            *old(job_counter),
            job_id,
            description_len,
            requirements_len,
            payment_lamports,
            deadline,
            now,
        ) {
            Some(e) => r == Err::<(JobAccount, EscrowVault), JobEscrowError>(e)
                && *final(job_counter) == *old(job_counter),
            None => {
                &&& r is Ok
                &&& is_posted_job(
                    r->Ok_0.0,
                    poster,
                    job_id,
                    description,
                    description_len,
                    requirements,
                    requirements_len,
                    payment_lamports,
                    deadline,
                    now,
                    job_bump,
                )
                &&& r->Ok_0.1 == (EscrowVault {
                    job: job_account_key,
                    amount: payment_lamports,
                    claimed: false,
                    bump: vault_bump,
                })
                &&& final(job_counter).count == job_id + 1
                &&& final(job_counter).bump == (if old(job_counter).count == 0 {
                    counter_bump
                } else {
                    old(job_counter).bump
                })
            },
        },
{
    if description_len as usize > MAX_DESCRIPTION_LENGTH {
        return Err(JobEscrowError::DescriptionTooLong);
    }
    if requirements_len as usize > MAX_REQUIREMENTS_LENGTH {
        return Err(JobEscrowError::RequirementsTooLong);
    }
    if payment_lamports == 0 {
        return Err(JobEscrowError::ZeroPayment);
    }
    if deadline <= now {
        return Err(JobEscrowError::InvalidDeadline);
    }
    let job = JobAccount {
        job_id,
        poster,
        worker: Pubkey::zero(),
        description,
        description_len,
        requirements,
        requirements_len,
        payment_lamports,
        deadline,
        status: JobStatus::Open,
        deliverable: [0u8; MAX_DELIVERABLE_LENGTH],
        deliverable_len: 0,
        created_at: now,
        updated_at: now,
        bump: job_bump,
    };
    let vault = EscrowVault {
        job: job_account_key,
        amount: payment_lamports,
        claimed: false,
        bump: vault_bump,
    };
    let mut counter = *job_counter;
    if counter.count == 0 {
        counter.count = 1;
        counter.bump = counter_bump;
    }
    // The provided job id must match the counter.
    if job_id != counter.count {
        return Err(JobEscrowError::InvalidJobStatus);
    }
    match counter.count.checked_add(1) {
        Some(next) => {
            counter.count = next;
        },
        None => {
            return Err(JobEscrowError::CounterOverflow);
        },
    }
    *job_counter = counter;
    assert(job.deliverable@ =~= zeros(256));
    Ok((job, vault))
}

} // verus!
