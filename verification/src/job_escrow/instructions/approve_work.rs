use vstd::prelude::*;

use crate::job_escrow::errors::JobEscrowError;
use crate::job_escrow::state::{EscrowVault, JobAccount, JobStatus};
use crate::outcome::outcome;
use crate::pubkey::Pubkey;

verus! {

/// The first check that rejects the approval, if any.
pub open spec fn approve_work_error(
    poster: Pubkey,
    worker: Pubkey,
    job: JobAccount,
    vault: EscrowVault,
) -> Option<JobEscrowError> {
    if poster != job.poster {
        Some(JobEscrowError::NotPoster)
    } else if worker != job.worker {
        Some(JobEscrowError::NotWorker)
    } else if !job.status.spec_can_approve() {
        Some(JobEscrowError::InvalidJobStatus)
    } else if vault.claimed {
        Some(JobEscrowError::AlreadyClaimed)
    } else {
        None
    }
}

/// The poster approves submitted work: the vault's whole amount moves from
/// the vault's lamports to the worker's, the vault is marked claimed and
/// emptied, and the job is completed.
pub fn handler(
    poster: Pubkey,
    worker: Pubkey,
    job_account: &mut JobAccount,
    escrow_vault: &mut EscrowVault,
    vault_lamports: &mut u64,
    worker_lamports: &mut u64,
    now: i64,
) -> (r: Result<(), JobEscrowError>)
    requires
        approve_work_error(poster, worker, *old(job_account), *old(escrow_vault)) is None ==> {
            &&& *old(vault_lamports) >= old(escrow_vault).amount
            &&& *old(worker_lamports) + old(escrow_vault).amount <= u64::MAX
        },
    ensures
        r == outcome(approve_work_error(poster, worker, *old(job_account), *old(escrow_vault))),
        r is Err ==> {
            &&& *final(job_account) == *old(job_account)
            &&& *final(escrow_vault) == *old(escrow_vault)
            &&& *final(vault_lamports) == *old(vault_lamports)
            &&& *final(worker_lamports) == *old(worker_lamports)
        },
        *final(vault_lamports) + *final(worker_lamports) == *old(vault_lamports) + *old(worker_lamports),
        r is Ok ==> {
            &&& *final(vault_lamports) == *old(vault_lamports) - old(escrow_vault).amount
            &&& *final(worker_lamports) == *old(worker_lamports) + old(escrow_vault).amount
            &&& *final(escrow_vault) == (EscrowVault {
                claimed: true,
                amount: 0,
                ..*old(escrow_vault)
            })
            &&& *final(job_account) == (JobAccount {
                status: JobStatus::Completed,
                updated_at: now,
                ..*old(job_account)
            })
        },
{
    if poster != job_account.poster {
        return Err(JobEscrowError::NotPoster);
    }
    if worker != job_account.worker {
        return Err(JobEscrowError::NotWorker);
    }
    if !job_account.status.can_approve() {
        return Err(JobEscrowError::InvalidJobStatus);
    }
    if escrow_vault.claimed {
        return Err(JobEscrowError::AlreadyClaimed);
    }
    // Transfer funds from escrow vault to worker
    let payment = escrow_vault.amount;
    *vault_lamports = *vault_lamports - payment;
    *worker_lamports = *worker_lamports + payment;

    escrow_vault.claimed = true;
    escrow_vault.amount = 0;
    job_account.status = JobStatus::Completed;
    job_account.updated_at = now;
    Ok(())
}

} // verus!
