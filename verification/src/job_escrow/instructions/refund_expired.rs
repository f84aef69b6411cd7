use vstd::prelude::*;

use crate::job_escrow::errors::JobEscrowError;
use crate::job_escrow::state::{EscrowVault, JobAccount, JobStatus};
use crate::outcome::outcome;
use crate::pubkey::Pubkey;

verus! {

/// Whether the job may be refunded at `now`: it was marked expired, or it is
/// still open, accepted or submitted and its deadline has passed.
pub open spec fn refundable(job: JobAccount, now: i64) -> bool {
    match job.status {
        JobStatus::Expired => true,
        JobStatus::Open | JobStatus::Accepted | JobStatus::Submitted => now > job.deadline,
        _ => false,
    }
}

/// Whether the job may be refunded at `now`.
pub fn is_refundable(job: &JobAccount, now: i64) -> (r: bool)
    ensures
        r == refundable(*job, now),
{
    match job.status {
        JobStatus::Expired => true,
        JobStatus::Open | JobStatus::Accepted | JobStatus::Submitted => now > job.deadline,
        _ => false,
    }
}

/// The first check that rejects the refund, if any.
pub open spec fn refund_expired_error(
    poster: Pubkey,
    job: JobAccount,
    vault: EscrowVault,
    now: i64,
) -> Option<JobEscrowError> {
    if poster != job.poster {
        Some(JobEscrowError::NotPoster)
    } else if !refundable(job, now) {
        Some(JobEscrowError::DeadlineNotPassed)
    } else if vault.claimed {
        Some(JobEscrowError::AlreadyClaimed)
    } else {
        None
    }
}

/// The poster takes back the payment of a job whose deadline has passed:
/// the vault's whole amount returns to the poster, the vault is marked
/// claimed and emptied, and the job is refunded.
pub fn handler(
    poster: Pubkey,
    job_account: &mut JobAccount,
    escrow_vault: &mut EscrowVault,
    vault_lamports: &mut u64,
    poster_lamports: &mut u64,
    now: i64,
) -> (r: Result<(), JobEscrowError>)
    requires
        refund_expired_error(poster, *old(job_account), *old(escrow_vault), now) is None ==> {
            &&& *old(vault_lamports) >= old(escrow_vault).amount
            &&& *old(poster_lamports) + old(escrow_vault).amount <= u64::MAX
        },
    ensures
        r == outcome(refund_expired_error(poster, *old(job_account), *old(escrow_vault), now)),
        r is Err ==> {
            &&& *final(job_account) == *old(job_account)
            &&& *final(escrow_vault) == *old(escrow_vault)
            &&& *final(vault_lamports) == *old(vault_lamports)
            &&& *final(poster_lamports) == *old(poster_lamports)
        },
        *final(vault_lamports) + *final(poster_lamports) == *old(vault_lamports) + *old(poster_lamports),
        r is Ok ==> {
            &&& *final(vault_lamports) == *old(vault_lamports) - old(escrow_vault).amount
            &&& *final(poster_lamports) == *old(poster_lamports) + old(escrow_vault).amount
            &&& *final(escrow_vault) == (EscrowVault {
                claimed: true,
                amount: 0,
                ..*old(escrow_vault)
            })
            &&& *final(job_account) == (JobAccount {
                status: JobStatus::Refunded,
                updated_at: now,
                ..*old(job_account)
            })
        },
{
    if poster != job_account.poster {
        return Err(JobEscrowError::NotPoster);
    }
    // Refundable if expired, or still open, accepted or submitted past the
    // deadline.
    if !is_refundable(job_account, now) {
        return Err(JobEscrowError::DeadlineNotPassed);
    }
    if escrow_vault.claimed {
        return Err(JobEscrowError::AlreadyClaimed);
    }
    // Refund payment back to poster
    let refund_amount = escrow_vault.amount;
    *poster_lamports = *poster_lamports + refund_amount;
    *vault_lamports = *vault_lamports - refund_amount;

    escrow_vault.claimed = true;
    escrow_vault.amount = 0;
    job_account.status = JobStatus::Refunded;
    job_account.updated_at = now;
    Ok(())
}

} // verus!
