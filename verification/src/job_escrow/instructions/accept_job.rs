use vstd::prelude::*;

use crate::agent_registry::state::AgentAccount;
use crate::job_escrow::errors::JobEscrowError;
use crate::job_escrow::state::{JobAccount, JobStatus};
use crate::outcome::outcome;
use crate::pubkey::Pubkey;

verus! {

/// The first check that rejects the acceptance, if any. `agent` is the
/// worker's record in the agent registry.
pub open spec fn accept_job_error(
    worker: Pubkey,
    agent: AgentAccount,
    job: JobAccount,
    now: i64,
) -> Option<JobEscrowError> {
    if agent.owner != worker {
        Some(JobEscrowError::Unauthorized)
    } else if !agent.is_active {
        Some(JobEscrowError::AgentNotActive)
    } else if !job.status.spec_can_accept() {
        Some(JobEscrowError::InvalidJobStatus)
    } else if job.deadline <= now {
        Some(JobEscrowError::JobExpired)
    } else if worker == job.poster {
        Some(JobEscrowError::SelfAssignment)
    } else {
        None
    }
}

/// The job after `worker` accepted it at `now`.
pub open spec fn accepted_job(job: JobAccount, worker: Pubkey, now: i64) -> JobAccount {
    JobAccount { worker, status: JobStatus::Accepted, updated_at: now, ..job }
}

/// A worker whose registered agent is active accepts an open job, not
/// their own, before its deadline. `agent` is the worker's record in the
/// agent registry; a deactivated agent cannot accept new jobs.
pub fn handler(
    worker: Pubkey,
    agent: &AgentAccount,
    job_account: &mut JobAccount,
    now: i64,
) -> (r: Result<(), JobEscrowError>)
    ensures
        r == outcome(accept_job_error(worker, *agent, *old(job_account), now)),
        r is Err ==> *final(job_account) == *old(job_account),
        r is Ok ==> *final(job_account) == accepted_job(*old(job_account), worker, now),
{
    if agent.owner != worker {
        return Err(JobEscrowError::Unauthorized);
    }
    if !agent.is_active {
        return Err(JobEscrowError::AgentNotActive);
    }
    if !job_account.status.can_accept() {
        return Err(JobEscrowError::InvalidJobStatus);
    }
    if job_account.deadline <= now {
        return Err(JobEscrowError::JobExpired);
    }
    if worker == job_account.poster {
        return Err(JobEscrowError::SelfAssignment);
    }
    job_account.worker = worker;
    job_account.status = JobStatus::Accepted;
    job_account.updated_at = now;
    Ok(())
}

} // verus!
