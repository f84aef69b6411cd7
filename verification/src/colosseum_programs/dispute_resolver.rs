use vstd::prelude::*;

use crate::bytes::{copy_prefix, utf8, with_prefix, zeros};
use crate::colosseum_programs::errors::ColosseumError;
use crate::colosseum_programs::job_escrow::{
    Job, STATUS_CANCELLED, STATUS_COMPLETED, STATUS_DISPUTED,
};
use crate::pubkey::Pubkey;

verus! {

/// Record of a dispute over a job.
#[derive(Clone, Copy, Debug)]
pub struct DisputeAccount {
    /// The job being disputed
    pub job: Pubkey,
    /// Who raised the dispute
    pub initiator: Pubkey,
    /// Reason for dispute
    pub reason: [u8; 256],
    pub reason_len: u16,
    /// Resolution text
    pub resolution: [u8; 256],
    pub resolution_len: u16,
    /// Whether the dispute has been resolved
    pub resolved: bool,
    /// 0=pending, 1=favor_poster, 2=favor_worker, 3=split
    pub ruling: u8,
    pub created_at: i64,
    pub bump: u8,
}

/// The first check that rejects raising the dispute, if any.
pub open spec fn raise_dispute_error(caller: Pubkey, job: Job, reason: Seq<char>) -> Option<
    ColosseumError,
> {
    if job.status != STATUS_DISPUTED {
        Some(ColosseumError::JobNotOpen)
    } else if job.poster != caller && job.worker != caller {
        Some(ColosseumError::NotDisputeParty)
    } else if utf8(reason).len() > 256 {
        Some(ColosseumError::NameTooLong)
    } else {
        None
    }
}

/// The record of a newly raised dispute: pending, unresolved.
pub open spec fn is_raised_dispute(
    dispute: DisputeAccount,
    caller: Pubkey,
    job_key: Pubkey,
    reason: Seq<char>,
    now: i64,
    bump: u8,
) -> bool {
    &&& dispute.job == job_key
    &&& dispute.initiator == caller
    &&& dispute.reason@ == with_prefix(zeros(256), utf8(reason))
    &&& dispute.reason_len == utf8(reason).len()
    &&& dispute.resolution@ == zeros(256)
    &&& dispute.resolution_len == 0
    &&& !dispute.resolved
    &&& dispute.ruling == 0
    &&& dispute.created_at == now
    &&& dispute.bump == bump
}

/// A party to a disputed job opens its dispute record with a reason of at
/// most 256 bytes. `job_key` is the address of `job`'s record.
pub fn raise_dispute(
    caller: Pubkey,
    job_key: Pubkey,
    job: &Job,
    reason: String,
    now: i64,
    bump: u8,
) -> (r: Result<DisputeAccount, ColosseumError>)
    ensures
        match raise_dispute_error(caller, *job, reason@) {
            Some(e) => r == Err::<DisputeAccount, ColosseumError>(e),
            None => r is Ok && is_raised_dispute(r->Ok_0, caller, job_key, reason@, now, bump),
        },
{
    if job.status != STATUS_DISPUTED {
        return Err(ColosseumError::JobNotOpen);
    }
    if job.poster != caller && job.worker != caller {
        return Err(ColosseumError::NotDisputeParty);
    }
    let reason_bytes = reason.as_str().as_bytes();
    if reason_bytes.len() > 256 {
        return Err(ColosseumError::NameTooLong);
    }
    let mut reason_buf = [0u8; 256];
    assert(reason_buf@ =~= zeros(256));
    copy_prefix(&mut reason_buf, reason_bytes);
    let resolution = [0u8; 256];
    assert(resolution@ =~= zeros(256));
    Ok(
        DisputeAccount {
            job: job_key,
            initiator: caller,
            reason: reason_buf,
            reason_len: reason_bytes.len() as u16,
            resolution,
            resolution_len: 0,
            resolved: false,
            ruling: 0,
            created_at: now,
            bump,
        },
    )
}

/// The first check that rejects the resolution, if any.
pub open spec fn resolve_dispute_error(
    caller: Pubkey,
    dispute: DisputeAccount,
    job_key: Pubkey,
    job: Job,
    poster: Pubkey,
    worker: Pubkey,
    resolution: Seq<char>,
    ruling: u8,
) -> Option<ColosseumError> {
    if dispute.resolved {
        Some(ColosseumError::DisputeAlreadyResolved)
    } else if job.poster != caller {
        Some(ColosseumError::NotJobPoster)
    } else if dispute.job != job_key {
        Some(ColosseumError::JobNotOpen)
    } else if utf8(resolution).len() > 256 {
        Some(ColosseumError::NameTooLong)
    } else if !(1 <= ruling && ruling <= 3) {
        Some(ColosseumError::InvalidDisputeRuling)
    } else if (ruling == 1 || ruling == 3) && poster != job.poster {
        Some(ColosseumError::NotJobPoster)
    } else if (ruling == 2 || ruling == 3) && worker != job.worker {
        Some(ColosseumError::NotAssignedWorker)
    } else {
        None
    }
}

/// The poster's share of a split payment: half, rounded down.
pub open spec fn poster_half(payment: u64) -> u64 {
    (payment / 2) as u64
}

/// The worker's share of a split payment: the rest.
pub open spec fn worker_rest(payment: u64) -> u64 {
    (payment - payment / 2) as u64
}

/// The lamports that the poster receives under a ruling.
pub open spec fn poster_award(ruling: u8, payment: u64) -> u64 {
    if ruling == 1 {
        payment
    } else if ruling == 3 {
        poster_half(payment)
    } else {
        0
    }
}

/// The lamports that the worker receives under a ruling.
pub open spec fn worker_award(ruling: u8, payment: u64) -> u64 {
    if ruling == 2 {
        payment
    } else if ruling == 3 {
        worker_rest(payment)
    } else {
        0
    }
}

/// The lamports that the poster and the worker receive under a ruling.
pub fn ruling_payout(ruling: u8, payment: u64) -> (r: (u64, u64))
    ensures
        r == (poster_award(ruling, payment), worker_award(ruling, payment)),
{
    if ruling == 1 {
        (payment, 0)
    } else if ruling == 2 {
        (0, payment)
    } else if ruling == 3 {
        let half = payment / 2;
        (half, payment - half)
    } else {
        (0, 0)
    }
}

/// The job's status after a ruling: completed when the worker wins,
/// cancelled otherwise.
pub open spec fn status_after_ruling(ruling: u8) -> u8 {
    if ruling == 2 {
        STATUS_COMPLETED
    } else {
        STATUS_CANCELLED
    }
}

/// The job's poster rules on an open dispute with a resolution text of at
/// most 256 bytes: 1 returns the payment to the poster, 2 pays the worker,
/// 3 splits it (the poster gets half rounded down, the worker the rest).
/// The payment leaves the job's lamports and the job is closed. `poster`
/// and `worker` are the keys of the wallets whose lamports are
/// `poster_lamports` and `worker_lamports`; a wallet that receives a share
/// must be the job's poster or worker respectively.
pub fn resolve_dispute(
    caller: Pubkey,
    dispute: &mut DisputeAccount,
    job_key: Pubkey,
    job: &mut Job,
    poster: Pubkey,
    worker: Pubkey,
    job_lamports: &mut u64,
    poster_lamports: &mut u64,
    worker_lamports: &mut u64,
    resolution: String,
    ruling: u8,
) -> (r: Result<(), ColosseumError>)
    requires
        resolve_dispute_error(
            caller,
            *old(dispute),
            job_key,
            *old(job),
            poster,
            worker,
            resolution@,
            ruling,
        )
            is None ==> {
            &&& *old(job_lamports) >= old(job).payment
            &&& *old(poster_lamports) + poster_award(ruling, old(job).payment) <= u64::MAX
            &&& *old(worker_lamports) + worker_award(ruling, old(job).payment) <= u64::MAX
        },
    ensures
        r == crate::outcome::outcome(
            resolve_dispute_error(
            caller,
            *old(dispute),
            job_key,
            *old(job),
            poster,
            worker,
            resolution@,
            ruling,
        ),
        ),
        *final(job_lamports) + *final(poster_lamports) + *final(worker_lamports) == *old(
            job_lamports,
        ) + *old(poster_lamports) + *old(worker_lamports),
        r is Err ==> {
            &&& *final(dispute) == *old(dispute)
            &&& *final(job) == *old(job)
            &&& *final(job_lamports) == *old(job_lamports)
            &&& *final(poster_lamports) == *old(poster_lamports)
            &&& *final(worker_lamports) == *old(worker_lamports)
        },
        r is Ok ==> {
            &&& final(dispute).resolution@ == with_prefix(
                old(dispute).resolution@,
                utf8(resolution@),
            )
            &&& *final(dispute) == (DisputeAccount {
                resolution: final(dispute).resolution,
                resolution_len: utf8(resolution@).len() as u16,
                ruling,
                resolved: true,
                ..*old(dispute)
            })
            &&& *final(job) == (Job { status: status_after_ruling(ruling), ..*old(job) })
            &&& *final(job_lamports) == *old(job_lamports) - old(job).payment
            &&& *final(poster_lamports) == *old(poster_lamports) + poster_award(
                ruling,
                old(job).payment,
            )
            &&& *final(worker_lamports) == *old(worker_lamports) + worker_award(
                ruling,
                old(job).payment,
            )
        },
{
    if dispute.resolved {
        return Err(ColosseumError::DisputeAlreadyResolved);
    }
    if job.poster != caller {
        return Err(ColosseumError::NotJobPoster);
    }
    if dispute.job != job_key {
        return Err(ColosseumError::JobNotOpen);
    }
    let resolution_bytes = resolution.as_str().as_bytes();
    if resolution_bytes.len() > 256 {
        return Err(ColosseumError::NameTooLong);
    }
    if !(ruling >= 1 && ruling <= 3) {
        return Err(ColosseumError::InvalidDisputeRuling);
    }
    // A share goes only to the job's own poster and worker wallets
    if (ruling == 1 || ruling == 3) && poster != job.poster {
        return Err(ColosseumError::NotJobPoster);
    }
    if (ruling == 2 || ruling == 3) && worker != job.worker {
        return Err(ColosseumError::NotAssignedWorker);
    }
    // Store resolution details
    copy_prefix(&mut dispute.resolution, resolution_bytes);
    dispute.resolution_len = resolution_bytes.len() as u16;
    dispute.ruling = ruling;
    dispute.resolved = true;

    let payment = job.payment;
    if ruling == 1 {
        // Favor poster — return entire escrow
        *poster_lamports = *poster_lamports + payment;
        *job_lamports = *job_lamports - payment;
        job.status = STATUS_CANCELLED;
    } else if ruling == 2 {
        // Favor worker — release entire escrow to worker
        *worker_lamports = *worker_lamports + payment;
        *job_lamports = *job_lamports - payment;
        job.status = STATUS_COMPLETED;
    } else {
        // Split — half to poster, the rest to worker
        let half = payment / 2;
        let worker_share = payment - half;
        *poster_lamports = *poster_lamports + half;
        *worker_lamports = *worker_lamports + worker_share;
        *job_lamports = *job_lamports - payment;
        // Cancelled (partial completion via split)
        job.status = STATUS_CANCELLED;
    }
    Ok(())
}

} // verus!
