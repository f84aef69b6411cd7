use vstd::prelude::*;

use crate::job_escrow::errors::JobEscrowError;
use crate::job_escrow::state::{EscrowVault, JobAccount, JobStatus};
use crate::outcome::outcome;
use crate::pubkey::Pubkey;

verus! {

/// The first check that rejects the cancellation, if any.
pub open spec fn cancel_job_error(poster: Pubkey, job: JobAccount, vault: EscrowVault) -> Option<
    JobEscrowError,
> {
    if poster != job.poster {
        Some(JobEscrowError::NotPoster)
    } else if !job.status.spec_can_cancel() {
        Some(JobEscrowError::NotOpenForCancellation)
    } else if vault.claimed {
        Some(JobEscrowError::AlreadyClaimed)
    } else {
        None
    }
}

/// The poster cancels an open or accepted job: the vault's whole amount
/// returns to the poster, the vault is marked claimed and emptied, and the
/// job is refunded.
pub fn handler(
    poster: Pubkey,
    job_account: &mut JobAccount,
    escrow_vault: &mut EscrowVault,
    vault_lamports: &mut u64,
    poster_lamports: &mut u64,
    now: i64,
) -> (r: Result<(), JobEscrowError>)
    requires
        cancel_job_error(poster, *old(job_account), *old(escrow_vault)) is None ==> {
            &&& *old(vault_lamports) >= old(escrow_vault).amount
            &&& *old(poster_lamports) + old(escrow_vault).amount <= u64::MAX
        },
    ensures
        r == outcome(cancel_job_error(poster, *old(job_account), *old(escrow_vault))),
        r is Err ==> {
            &&& *final(job_account) == *old(job_account)
            &&& *final(escrow_vault) == *old(escrow_vault)
            &&& *final(vault_lamports) == *old(vault_lamports)
            &&& *final(poster_lamports) == *old(poster_lamports)
        },
        *final(vault_lamports) + *final(poster_lamports) == *old(vault_lamports) + *old(poster_lamports),
        r is Ok ==> {
            &&& *final(vault_lamports) == *old(vault_lamports) - old(escrow_vault).amount
            &&& *final(poster_lamports) == *old(poster_lamports) + old(escrow_vault).amount
            &&& *final(escrow_vault) == (EscrowVault {
                claimed: true,
                amount: 0,
                ..*old(escrow_vault)
            })
            &&& *final(job_account) == (JobAccount {
                status: JobStatus::Refunded,
                updated_at: now,
                ..*old(job_account)
            })
        },
{
    if poster != job_account.poster {
        return Err(JobEscrowError::NotPoster);
    }
    if !job_account.status.can_cancel() {
        return Err(JobEscrowError::NotOpenForCancellation);
    }
    if escrow_vault.claimed {
        return Err(JobEscrowError::AlreadyClaimed);
    }
    // Refund payment back to poster
    let refund_amount = escrow_vault.amount;
    *poster_lamports = *poster_lamports + refund_amount;
    *vault_lamports = *vault_lamports - refund_amount;

    escrow_vault.claimed = true;
    escrow_vault.amount = 0;
    job_account.status = JobStatus::Refunded;
    job_account.updated_at = now;
    Ok(())
}

} // verus!
