use vstd::prelude::*;

use crate::job_escrow::errors::JobEscrowError;
use crate::job_escrow::state::{JobAccount, JobStatus};
use crate::outcome::outcome;
use crate::pubkey::Pubkey;

verus! {

/// The first check that rejects the dispute, if any.
pub open spec fn dispute_job_error(initiator: Pubkey, job: JobAccount) -> Option<JobEscrowError> {
    if initiator != job.poster && initiator != job.worker {
        Some(JobEscrowError::Unauthorized)
    } else if !job.status.spec_can_dispute() {
        Some(JobEscrowError::InvalidJobStatus)
    } else {
        None
    }
}

/// Either party disputes an accepted or submitted job.
pub fn handler(initiator: Pubkey, job_account: &mut JobAccount, now: i64) -> (r: Result<
    (),
    JobEscrowError,
>)
    ensures
        r == outcome(dispute_job_error(initiator, *old(job_account))),
        r is Err ==> *final(job_account) == *old(job_account),
        r is Ok ==> *final(job_account) == (JobAccount {
            status: JobStatus::Disputed,
            updated_at: now,
            ..*old(job_account)
        }),
{
    if initiator != job_account.poster && initiator != job_account.worker {
        return Err(JobEscrowError::Unauthorized);
    }
    if !job_account.status.can_dispute() {
        return Err(JobEscrowError::InvalidJobStatus);
    }
    job_account.status = JobStatus::Disputed;
    job_account.updated_at = now;
    Ok(())
}

} // verus!
