use vstd::prelude::*;

use crate::job_escrow::errors::JobEscrowError;
use crate::job_escrow::state::{JobAccount, JobStatus, MAX_DELIVERABLE_LENGTH};
use crate::outcome::outcome;
use crate::pubkey::Pubkey;

verus! {

/// The first check that rejects the submission, if any.
pub open spec fn submit_work_error(
    worker: Pubkey,
    job: JobAccount,
    deliverable_len: u16,
    now: i64,
) -> Option<JobEscrowError> {
    if worker != job.worker {
        Some(JobEscrowError::NotWorker)
    } else if deliverable_len > MAX_DELIVERABLE_LENGTH {
        Some(JobEscrowError::DeliverableTooLong)
    } else if !job.status.spec_can_submit() {
        Some(JobEscrowError::InvalidJobStatus)
    } else if job.deadline <= now {
        Some(JobEscrowError::JobExpired)
    } else {
        None
    }
}

/// The job after its worker submitted `deliverable` at `now`.
pub open spec fn submitted_job(
    job: JobAccount,
    deliverable: [u8; 256],
    deliverable_len: u16,
    now: i64,
) -> JobAccount {
    JobAccount {
        deliverable,
        deliverable_len,
        status: JobStatus::Submitted,
        updated_at: now,
        ..job
    }
}

/// The assigned worker submits deliverables for an accepted job before its
/// deadline.
pub fn handler(
    worker: Pubkey,
    job_account: &mut JobAccount,
    deliverable: [u8; 256],
    deliverable_len: u16,
    now: i64,
) -> (r: Result<(), JobEscrowError>)
    ensures
        r == outcome(submit_work_error(worker, *old(job_account), deliverable_len, now)),
        r is Err ==> *final(job_account) == *old(job_account),
        r is Ok ==> *final(job_account) == submitted_job(
            *old(job_account),
            deliverable,
            deliverable_len,
            now,
        ),
{
    if worker != job_account.worker {
        return Err(JobEscrowError::NotWorker);
    }
    if deliverable_len as usize > MAX_DELIVERABLE_LENGTH {
        return Err(JobEscrowError::DeliverableTooLong);
    }
    if !job_account.status.can_submit() {
        return Err(JobEscrowError::InvalidJobStatus);
    }
    if job_account.deadline <= now {
        return Err(JobEscrowError::JobExpired);
    }
    job_account.deliverable = deliverable;
    job_account.deliverable_len = deliverable_len;
    job_account.status = JobStatus::Submitted;
    job_account.updated_at = now;
    Ok(())
}

} // verus!
