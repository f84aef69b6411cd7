use vstd::prelude::*;

use crate::bytes::{copy_prefix, utf8, with_prefix, zeros};
use crate::colosseum_programs::agent_registry::{strings_fit_32, buffers_of_strings, Agent};
use crate::colosseum_programs::errors::ColosseumError;
use crate::outcome::outcome;
use crate::pubkey::Pubkey;

verus! {

/// Job status codes.
pub const STATUS_OPEN: u8 = 0;

pub const STATUS_ASSIGNED: u8 = 1;

pub const STATUS_SUBMITTED: u8 = 2;

pub const STATUS_COMPLETED: u8 = 3;

pub const STATUS_DISPUTED: u8 = 4;

pub const STATUS_CANCELLED: u8 = 5;

pub const STATUS_EXPIRED: u8 = 6;

/// Record of a job; the record itself holds the escrowed lamports.
#[derive(Clone, Debug)]
pub struct Job {
    /// Unique job identifier
    pub job_id: [u8; 32],
    pub job_id_len: u8,
    /// Who posted the job
    pub poster: Pubkey,
    /// Who accepted (the zero key if unassigned)
    pub worker: Pubkey,
    pub worker_assigned: bool,
    /// Job description
    pub description: [u8; 128],
    pub description_len: u8,
    /// Required capabilities
    pub requirements: Vec<[u8; 32]>,
    pub requirement_count: u8,
    /// SOL in escrow
    pub payment: u64,
    /// Unix timestamp
    pub deadline: i64,
    /// 0=open, 1=assigned, 2=submitted, 3=completed, 4=disputed, 5=cancelled, 6=expired
    pub status: u8,
    /// Work submission URL/hash
    pub deliverable: [u8; 256],
    pub deliverable_len: u16,
    pub created_at: i64,
    pub bump: u8,
}

/// The first check that rejects the posting, if any.
pub open spec fn post_job_error(
    job_id: Seq<char>,
    description: Seq<char>,
    payment: u64,
) -> Option<ColosseumError> {
    if utf8(job_id).len() > 32 {
        Some(ColosseumError::NameTooLong)
    } else if utf8(description).len() > 128 {
        Some(ColosseumError::NameTooLong)
    } else if payment < 1_000_000 {
        Some(ColosseumError::PaymentTooLow)
    } else {
        None
    }
}

/// The record of a newly posted job: open, unassigned, without deliverable.
pub open spec fn is_posted_job(
    job: Job,
    poster: Pubkey,
    job_id: Seq<char>,
    description: Seq<char>,
    requirements: Seq<String>,
    payment: u64,
    deadline: i64,
    now: i64,
    bump: u8,
) -> bool {
    &&& job.job_id@ == with_prefix(zeros(32), utf8(job_id))
    &&& job.job_id_len == utf8(job_id).len()
    &&& job.poster == poster
    &&& job.worker.is_zero()
    &&& !job.worker_assigned
    &&& job.description@ == with_prefix(zeros(128), utf8(description))
    &&& job.description_len == utf8(description).len()
    &&& buffers_of_strings(job.requirements@, requirements)
    &&& job.requirement_count == requirements.len() as u8
    &&& job.payment == payment
    &&& job.deadline == deadline
    &&& job.status == STATUS_OPEN
    &&& job.deliverable@ == zeros(256)
    &&& job.deliverable_len == 0
    &&& job.created_at == now
    &&& job.bump == bump
}

/// Post a job with an id of at most 32 bytes, a description of at most 128
/// bytes, requirements of at most 32 bytes each and a payment of at least
/// 0.001 SOL. The caller then moves `payment` lamports from the poster into
/// the job's record.
pub fn post_job(
    poster: Pubkey,
    job_id: String,
    description: String,
    requirements: Vec<String>,
    payment: u64,
    deadline: i64,
    now: i64,
    bump: u8,
) -> (r: Result<Job, ColosseumError>)
    requires
        post_job_error(job_id@, description@, payment) is None ==> strings_fit_32(
            requirements@,
        ),
    ensures
        match post_job_error(job_id@, description@, payment) {
            Some(e) => r == Err::<Job, ColosseumError>(e),
            None => r is Ok && is_posted_job(
                r->Ok_0,
                poster,
                job_id@,
                description@,
                requirements@,
                payment,
                deadline,
                now,
                bump,
            ),
        },
{
    let id_bytes = job_id.as_str().as_bytes();
    let desc_bytes = description.as_str().as_bytes();
    if id_bytes.len() > 32 {
        return Err(ColosseumError::NameTooLong);
    }
    if desc_bytes.len() > 128 {
        return Err(ColosseumError::NameTooLong);
    }
    // 0.001 SOL min
    if payment < 1_000_000 {
        return Err(ColosseumError::PaymentTooLow);
    }
    let mut id_buf = [0u8; 32];
    assert(id_buf@ =~= zeros(32));
    copy_prefix(&mut id_buf, id_bytes);
    let mut desc_buf = [0u8; 128];
    assert(desc_buf@ =~= zeros(128));
    copy_prefix(&mut desc_buf, desc_bytes);
    let reqs = crate::colosseum_programs::agent_registry::string_buffers(&requirements);
    let deliverable = [0u8; 256];
    assert(deliverable@ =~= zeros(256));
    Ok(
        Job {
            job_id: id_buf,
            job_id_len: id_bytes.len() as u8,
            poster,
            worker: Pubkey::zero(),
            worker_assigned: false,
            description: desc_buf,
            description_len: desc_bytes.len() as u8,
            requirements: reqs,
            requirement_count: requirements.len() as u8,
            payment,
            deadline,
            status: STATUS_OPEN,
            deliverable,
            deliverable_len: 0,
            created_at: now,
            bump,
        },
    )
}

/// The first check that rejects the acceptance, if any.
pub open spec fn accept_job_error(agent: Agent, job: Job, now: i64) -> Option<ColosseumError> {
    if !agent.active {
        Some(ColosseumError::AgentNotActive)
    } else if job.status != STATUS_OPEN {
        Some(ColosseumError::JobNotOpen)
    } else if now >= job.deadline {
        Some(ColosseumError::DeadlinePassed)
    } else {
        None
    }
}

/// An active agent's worker accepts an open job before its deadline.
/// `agent` is the worker's agent record.
pub fn accept_job(worker: Pubkey, job: &mut Job, agent: &Agent, now: i64) -> (r: Result<
    (),
    ColosseumError,
>)
    ensures
        r == outcome(accept_job_error(*agent, *old(job), now)),
        r is Err ==> *final(job) == *old(job),
        r is Ok ==> *final(job) == (Job {
            worker,
            worker_assigned: true,
            status: STATUS_ASSIGNED,
            ..*old(job)
        }),
{
    if !agent.active {
        return Err(ColosseumError::AgentNotActive);
    }
    if job.status != STATUS_OPEN {
        return Err(ColosseumError::JobNotOpen);
    }
    if now >= job.deadline {
        return Err(ColosseumError::DeadlinePassed);
    }
    job.worker = worker;
    job.worker_assigned = true;
    job.status = STATUS_ASSIGNED;
    Ok(())
}

/// The first check that rejects the submission, if any.
pub open spec fn submit_work_error(worker: Pubkey, job: Job) -> Option<ColosseumError> {
    if job.worker != worker {
        Some(ColosseumError::NotAssignedWorker)
    } else if job.status != STATUS_ASSIGNED {
        Some(ColosseumError::JobNotOpen)
    } else {
        None
    }
}

/// The assigned worker submits a deliverable of at most 256 bytes; its bytes
/// overwrite the start of the job's deliverable buffer.
pub fn submit_work(worker: Pubkey, job: &mut Job, deliverable: String) -> (r: Result<
    (),
    ColosseumError,
>)
    requires
        submit_work_error(worker, *old(job)) is None ==> utf8(deliverable@).len() <= 256,
    ensures
        r == outcome(submit_work_error(worker, *old(job))),
        r is Err ==> *final(job) == *old(job),
        r is Ok ==> {
            &&& final(job).deliverable@ == with_prefix(old(job).deliverable@, utf8(deliverable@))
            &&& *final(job) == (Job {
                deliverable: final(job).deliverable,
                deliverable_len: utf8(deliverable@).len() as u16,
                status: STATUS_SUBMITTED,
                ..*old(job)
            })
        },
{
    if job.worker != worker {
        return Err(ColosseumError::NotAssignedWorker);
    }
    if job.status != STATUS_ASSIGNED {
        return Err(ColosseumError::JobNotOpen);
    }
    let del_bytes = deliverable.as_str().as_bytes();
    copy_prefix(&mut job.deliverable, del_bytes);
    job.deliverable_len = del_bytes.len() as u16;
    job.status = STATUS_SUBMITTED;
    Ok(())
}

/// The first check that rejects the approval, if any.
pub open spec fn approve_work_error(poster: Pubkey, worker: Pubkey, job: Job) -> Option<
    ColosseumError,
> {
    if job.poster != poster {
        Some(ColosseumError::NotJobPoster)
    } else if job.worker != worker {
        Some(ColosseumError::NotAssignedWorker)
    } else if job.status != STATUS_SUBMITTED {
        Some(ColosseumError::JobNotOpen)
    } else {
        None
    }
}

/// The poster approves submitted work: the payment moves from the job's
/// lamports to the worker's and the job is completed.
pub fn approve_work(
    poster: Pubkey,
    worker: Pubkey,
    job: &mut Job,
    job_lamports: &mut u64,
    worker_lamports: &mut u64,
) -> (r: Result<(), ColosseumError>)
    requires
        approve_work_error(poster, worker, *old(job)) is None ==> {
            &&& *old(job_lamports) >= old(job).payment
            &&& *old(worker_lamports) + old(job).payment <= u64::MAX
        },
    ensures
        r == outcome(approve_work_error(poster, worker, *old(job))),
        *final(job_lamports) + *final(worker_lamports) == *old(job_lamports) + *old(
            worker_lamports,
        ),
        r is Err ==> {
            &&& *final(job) == *old(job)
            &&& *final(job_lamports) == *old(job_lamports)
            &&& *final(worker_lamports) == *old(worker_lamports)
        },
        r is Ok ==> {
            &&& *final(job) == (Job { status: STATUS_COMPLETED, ..*old(job) })
            &&& *final(job_lamports) == *old(job_lamports) - old(job).payment
            &&& *final(worker_lamports) == *old(worker_lamports) + old(job).payment
        },
{
    if job.poster != poster {
        return Err(ColosseumError::NotJobPoster);
    }
    if job.worker != worker {
        return Err(ColosseumError::NotAssignedWorker);
    }
    if job.status != STATUS_SUBMITTED {
        return Err(ColosseumError::JobNotOpen);
    }
    let payment = job.payment;
    job.status = STATUS_COMPLETED;
    // Release escrow to worker
    *worker_lamports = *worker_lamports + payment;
    *job_lamports = *job_lamports - payment;
    Ok(())
}

/// The first check that rejects the dispute, if any.
pub open spec fn dispute_job_error(disputer: Pubkey, job: Job) -> Option<ColosseumError> {
    if job.poster != disputer && job.worker != disputer {
        Some(ColosseumError::NotDisputeParty)
    } else if job.status != STATUS_ASSIGNED && job.status != STATUS_SUBMITTED {
        Some(ColosseumError::JobNotOpen)
    } else {
        None
    }
}

/// The poster or the worker disputes an assigned or submitted job;
/// `reason` is informational.
pub fn dispute_job(disputer: Pubkey, job: &mut Job, reason: String) -> (r: Result<
    (),
    ColosseumError,
>)
    ensures
        r == outcome(dispute_job_error(disputer, *old(job))),
        r is Err ==> *final(job) == *old(job),
        r is Ok ==> *final(job) == (Job { status: STATUS_DISPUTED, ..*old(job) }),
{
    if job.poster != disputer && job.worker != disputer {
        return Err(ColosseumError::NotDisputeParty);
    }
    if !(job.status == STATUS_ASSIGNED || job.status == STATUS_SUBMITTED) {
        return Err(ColosseumError::JobNotOpen);
    }
    job.status = STATUS_DISPUTED;
    Ok(())
}

/// The first check that rejects the cancellation, if any.
pub open spec fn cancel_job_error(poster: Pubkey, job: Job) -> Option<ColosseumError> {
    if job.poster != poster {
        Some(ColosseumError::NotJobPoster)
    } else if job.status != STATUS_OPEN {
        Some(ColosseumError::JobNotOpen)
    } else {
        None
    }
}

/// The poster cancels an open job: the payment returns from the job's
/// lamports to the poster's.
pub fn cancel_job(
    poster: Pubkey,
    job: &mut Job,
    job_lamports: &mut u64,
    poster_lamports: &mut u64,
) -> (r: Result<(), ColosseumError>)
    requires
        cancel_job_error(poster, *old(job)) is None ==> {
            &&& *old(job_lamports) >= old(job).payment
            &&& *old(poster_lamports) + old(job).payment <= u64::MAX
        },
    ensures
        r == outcome(cancel_job_error(poster, *old(job))),
        *final(job_lamports) + *final(poster_lamports) == *old(job_lamports) + *old(
            poster_lamports,
        ),
        r is Err ==> {
            &&& *final(job) == *old(job)
            &&& *final(job_lamports) == *old(job_lamports)
            &&& *final(poster_lamports) == *old(poster_lamports)
        },
        r is Ok ==> {
            &&& *final(job) == (Job { status: STATUS_CANCELLED, ..*old(job) })
            &&& *final(job_lamports) == *old(job_lamports) - old(job).payment
            &&& *final(poster_lamports) == *old(poster_lamports) + old(job).payment
        },
{
    if job.poster != poster {
        return Err(ColosseumError::NotJobPoster);
    }
    if job.status != STATUS_OPEN {
        return Err(ColosseumError::JobNotOpen);
    }
    let payment = job.payment;
    job.status = STATUS_CANCELLED;
    // Return escrow funds to poster
    *poster_lamports = *poster_lamports + payment;
    *job_lamports = *job_lamports - payment;
    Ok(())
}

/// The first check that rejects the expiry, if any.
pub open spec fn expire_job_error(poster: Pubkey, job: Job, now: i64) -> Option<ColosseumError> {
    if poster != job.poster {
        Some(ColosseumError::NotJobPoster)
    } else if job.status != STATUS_OPEN && job.status != STATUS_ASSIGNED {
        Some(ColosseumError::JobNotOpen)
    } else if now <= job.deadline {
        Some(ColosseumError::DeadlineNotPassed)
    } else {
        None
    }
}

/// Anyone expires an open or assigned job past its deadline: the payment
/// moves from the job's lamports to the poster's wallet. `poster` is the key
/// of the wallet whose lamports are `poster_lamports`; it must be the job's
/// poster.
pub fn expire_job(
    poster: Pubkey,
    job: &mut Job,
    job_lamports: &mut u64,
    poster_lamports: &mut u64,
    now: i64,
) -> (r: Result<(), ColosseumError>)
    requires
        expire_job_error(poster, *old(job), now) is None ==> {
            &&& *old(job_lamports) >= old(job).payment
            &&& *old(poster_lamports) + old(job).payment <= u64::MAX
        },
    ensures
        r == outcome(expire_job_error(poster, *old(job), now)),
        *final(job_lamports) + *final(poster_lamports) == *old(job_lamports) + *old(
            poster_lamports,
        ),
        r is Err ==> {
            &&& *final(job) == *old(job)
            &&& *final(job_lamports) == *old(job_lamports)
            &&& *final(poster_lamports) == *old(poster_lamports)
        },
        r is Ok ==> {
            &&& *final(job) == (Job { status: STATUS_EXPIRED, ..*old(job) })
            &&& *final(job_lamports) == *old(job_lamports) - old(job).payment
            &&& *final(poster_lamports) == *old(poster_lamports) + old(job).payment
        },
{
    // The refund goes to the job's poster only
    if job.poster != poster {
        return Err(ColosseumError::NotJobPoster);
    }
    if !(job.status == STATUS_OPEN || job.status == STATUS_ASSIGNED) {
        return Err(ColosseumError::JobNotOpen);
    }
    if now <= job.deadline {
        return Err(ColosseumError::DeadlineNotPassed);
    }
    let payment = job.payment;
    job.status = STATUS_EXPIRED;
    // Return escrow funds to poster
    *poster_lamports = *poster_lamports + payment;
    *job_lamports = *job_lamports - payment;
    Ok(())
}

} // verus!
