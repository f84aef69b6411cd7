use vstd::prelude::*;

use crate::agent_registry::instructions::deactivate_agent::deactivate_agent_error;
use crate::agent_registry::state::AgentAccount;
use crate::job_escrow::instructions::accept_job::{accept_job_error, accepted_job};
use crate::job_escrow::instructions::approve_work::approve_work_error;
use crate::job_escrow::instructions::cancel_job::cancel_job_error;
use crate::job_escrow::instructions::dispute_job::dispute_job_error;
use crate::job_escrow::instructions::post_job::{is_posted_job, normalized_count, post_job_error};
use crate::job_escrow::instructions::refund_expired::refund_expired_error;
use crate::job_escrow::instructions::submit_work::{submit_work_error, submitted_job};
use crate::job_escrow::state::{EscrowVault, JobAccount, JobCounter, JobStatus};
use crate::pubkey::Pubkey;

verus! {

/// A job is settled once its escrow has been paid out, to the worker or back
/// to the poster.
pub open spec fn is_settled(status: JobStatus) -> bool {
    status == JobStatus::Completed || status == JobStatus::Refunded
}

/// The vault agrees with its job: it is claimed exactly when the job is
/// settled, an unclaimed vault holds the job's whole payment, and a claimed
/// vault holds nothing.
pub open spec fn vault_matches_job(job: JobAccount, vault: EscrowVault) -> bool {
    &&& vault.claimed <==> is_settled(job.status)
    &&& !vault.claimed ==> vault.amount == job.payment_lamports
    &&& vault.claimed ==> vault.amount == 0
}

/// A freshly posted job and its vault agree.
pub proof fn posting_starts_consistent(
    job: JobAccount,
    vault: EscrowVault,
    poster: Pubkey,
    job_id: u64,
    description: [u8; 512],
    description_len: u16,
    requirements: [u8; 1024],
    requirements_len: u16,
    payment_lamports: u64,
    deadline: i64,
    now: i64,
    job_bump: u8,
)
    requires
        is_posted_job(
            job,
            poster,
            job_id,
            description,
            description_len,
            requirements,
            requirements_len,
            payment_lamports,
            deadline,
            now,
            job_bump,
        ),
        vault.amount == payment_lamports,
        !vault.claimed,
    ensures
        vault_matches_job(job, vault),
{
}

/// Accepting, submitting and disputing keep the vault in agreement with its
/// job (they leave the vault untouched and never settle the job).
pub proof fn unsettling_steps_keep_vault_consistent(
    job: JobAccount,
    agent: AgentAccount,
    vault: EscrowVault,
    worker: Pubkey,
    initiator: Pubkey,
    deliverable: [u8; 256],
    deliverable_len: u16,
    now: i64,
)
    requires
        vault_matches_job(job, vault),
    ensures
        accept_job_error(worker, agent, job, now) is None ==> vault_matches_job(
            accepted_job(job, worker, now),
            vault,
        ),
        submit_work_error(worker, job, deliverable_len, now) is None ==> vault_matches_job(
            submitted_job(job, deliverable, deliverable_len, now),
            vault,
        ),
        dispute_job_error(initiator, job) is None ==> vault_matches_job(
            JobAccount { status: JobStatus::Disputed, updated_at: now, ..job },
            vault,
        ),
{
}

/// Approving, cancelling and refunding settle the job and empty its vault,
/// keeping the two in agreement.
pub proof fn settling_steps_keep_vault_consistent(
    job: JobAccount,
    vault: EscrowVault,
    poster: Pubkey,
    worker: Pubkey,
    now: i64,
)
    requires
        vault_matches_job(job, vault),
    ensures
        approve_work_error(poster, worker, job, vault) is None ==> vault_matches_job(
            JobAccount { status: JobStatus::Completed, updated_at: now, ..job },
            EscrowVault { claimed: true, amount: 0, ..vault },
        ),
        cancel_job_error(poster, job, vault) is None ==> vault_matches_job(
            JobAccount { status: JobStatus::Refunded, updated_at: now, ..job },
            EscrowVault { claimed: true, amount: 0, ..vault },
        ),
        refund_expired_error(poster, job, vault, now) is None ==> vault_matches_job(
            JobAccount { status: JobStatus::Refunded, updated_at: now, ..job },
            EscrowVault { claimed: true, amount: 0, ..vault },
        ),
{
}

/// An escrow pays out at most once: once its vault is claimed, approval,
/// cancellation and refund are all refused.
pub proof fn claimed_vault_pays_out_nothing(
    job: JobAccount,
    vault: EscrowVault,
    poster: Pubkey,
    worker: Pubkey,
    now: i64,
)
    requires
        vault.claimed,
    ensures
        approve_work_error(poster, worker, job, vault) is Some,
        cancel_job_error(poster, job, vault) is Some,
        refund_expired_error(poster, job, vault, now) is Some,
{
}

/// Completed, refunded and disputed jobs are final: every instruction on
/// them is refused.
pub proof fn final_statuses_refuse_every_step(
    job: JobAccount,
    agent: AgentAccount,
    vault: EscrowVault,
    poster: Pubkey,
    worker: Pubkey,
    initiator: Pubkey,
    deliverable_len: u16,
    now: i64,
)
    requires
        job.status == JobStatus::Completed || job.status == JobStatus::Refunded || job.status
            == JobStatus::Disputed,
    ensures
        accept_job_error(worker, agent, job, now) is Some,
        submit_work_error(worker, job, deliverable_len, now) is Some,
        approve_work_error(poster, worker, job, vault) is Some,
        dispute_job_error(initiator, job) is Some,
        cancel_job_error(poster, job, vault) is Some,
        refund_expired_error(poster, job, vault, now) is Some,
{
}

/// Job identifiers are issued in increasing order: after a posting with
/// `first_id` succeeds, the next posting that succeeds has `first_id + 1`.
pub proof fn job_ids_increase(
    counter: JobCounter,
    next_counter: JobCounter,
    first_id: u64,
    second_id: u64,
    description_len: u16,
    requirements_len: u16,
    payment_lamports: u64,
    deadline: i64,
    now: i64,
    second_description_len: u16,
    second_requirements_len: u16,
    second_payment: u64,
    second_deadline: i64,
    second_now: i64,
)
    requires
        post_job_error(
            counter,
            first_id,
            description_len,
            requirements_len,
            payment_lamports,
            deadline,
            now,
        ) is None,
        next_counter.count == first_id + 1,
        post_job_error(
            next_counter,
            second_id,
            second_description_len,
            second_requirements_len,
            second_payment,
            second_deadline,
            second_now,
        ) is None,
    ensures
        first_id == normalized_count(counter),
        second_id == first_id + 1,
{
}

/// A deactivated agent cannot accept new jobs: once its owner's
/// deactivation succeeds, that owner's acceptances are refused.
pub proof fn deactivated_agent_accepts_no_job(
    owner: Pubkey,
    agent: AgentAccount,
    job: JobAccount,
    now: i64,
    later: i64,
)
    requires
        deactivate_agent_error(owner, agent) is None,
    ensures
        accept_job_error(
            owner,
            AgentAccount { is_active: false, updated_at: now, ..agent },
            job,
            later,
        ) is Some,
{
}

/// Exactly when a posting is accepted: the description fits in 512 bytes and
/// the requirements in 1024, the payment is positive, the deadline is later
/// than now, and the job id is the counter's next id (1 for a fresh
/// counter), below the largest id.
pub proof fn posting_accepted_exactly_when(
    counter: JobCounter,
    job_id: u64,
    description_len: u16,
    requirements_len: u16,
    payment_lamports: u64,
    deadline: i64,
    now: i64,
)
    ensures
        post_job_error(
            counter,
            job_id,
            description_len,
            requirements_len,
            payment_lamports,
            deadline,
            now,
        ) is None <==> {
            &&& description_len <= 512
            &&& requirements_len <= 1024
            &&& payment_lamports > 0
            &&& deadline > now
            &&& job_id == (if counter.count == 0 { 1 } else { counter.count })
            &&& job_id < u64::MAX
        },
{
}

/// Exactly when an acceptance is accepted: the worker owns an active agent,
/// the job is open, its deadline is later than now, and the worker is not
/// its poster. The accepted job records the worker and becomes Accepted,
/// all else unchanged but the update time.
pub proof fn acceptance_accepted_exactly_when(
    worker: Pubkey,
    agent: AgentAccount,
    job: JobAccount,
    now: i64,
)
    ensures
        accept_job_error(worker, agent, job, now) is None <==> {
            &&& agent.owner == worker
            &&& agent.is_active
            &&& job.status == JobStatus::Open
            &&& job.deadline > now
            &&& worker != job.poster
        },
        accepted_job(job, worker, now).worker == worker,
        accepted_job(job, worker, now).status == JobStatus::Accepted,
        accepted_job(job, worker, now).updated_at == now,
        accepted_job(job, worker, now).poster == job.poster,
        accepted_job(job, worker, now).payment_lamports == job.payment_lamports,
        accepted_job(job, worker, now).deadline == job.deadline,
        accepted_job(job, worker, now).job_id == job.job_id,
{
}

/// Exactly when a submission is accepted: it comes from the job's worker,
/// the deliverable fits in 256 bytes, the job is accepted and its deadline
/// is later than now. The job becomes Submitted with that deliverable.
pub proof fn submission_accepted_exactly_when(
    worker: Pubkey,
    job: JobAccount,
    deliverable: [u8; 256],
    deliverable_len: u16,
    now: i64,
)
    ensures
        submit_work_error(worker, job, deliverable_len, now) is None <==> {
            &&& worker == job.worker
            &&& deliverable_len <= 256
            &&& job.status == JobStatus::Accepted
            &&& job.deadline > now
        },
        submitted_job(job, deliverable, deliverable_len, now).status == JobStatus::Submitted,
        submitted_job(job, deliverable, deliverable_len, now).deliverable == deliverable,
        submitted_job(job, deliverable, deliverable_len, now).deliverable_len == deliverable_len,
        submitted_job(job, deliverable, deliverable_len, now).worker == job.worker,
        submitted_job(job, deliverable, deliverable_len, now).payment_lamports
            == job.payment_lamports,
{
}

/// Exactly when an approval is accepted: the poster approves the job's own
/// worker's submitted work while the vault is unclaimed.
pub proof fn approval_accepted_exactly_when(
    poster: Pubkey,
    worker: Pubkey,
    job: JobAccount,
    vault: EscrowVault,
)
    ensures
        approve_work_error(poster, worker, job, vault) is None <==> {
            &&& poster == job.poster
            &&& worker == job.worker
            &&& job.status == JobStatus::Submitted
            &&& !vault.claimed
        },
{
}

/// Exactly when a dispute of a job is accepted: its poster or its worker
/// disputes it while it is accepted or submitted.
pub proof fn job_dispute_accepted_exactly_when(initiator: Pubkey, job: JobAccount)
    ensures
        dispute_job_error(initiator, job) is None <==> {
            &&& initiator == job.poster || initiator == job.worker
            &&& job.status == JobStatus::Accepted || job.status == JobStatus::Submitted
        },
{
}

/// Exactly when a cancellation is accepted: the poster cancels an open or
/// accepted job while the vault is unclaimed.
pub proof fn cancellation_accepted_exactly_when(
    poster: Pubkey,
    job: JobAccount,
    vault: EscrowVault,
)
    ensures
        cancel_job_error(poster, job, vault) is None <==> {
            &&& poster == job.poster
            &&& job.status == JobStatus::Open || job.status == JobStatus::Accepted
            &&& !vault.claimed
        },
{
}

/// Exactly when a refund is accepted: the poster asks while the vault is
/// unclaimed, and the job was marked expired, or is open, accepted or
/// submitted with its deadline before now.
pub proof fn refund_accepted_exactly_when(
    poster: Pubkey,
    job: JobAccount,
    vault: EscrowVault,
    now: i64,
)
    ensures
        refund_expired_error(poster, job, vault, now) is None <==> {
            &&& poster == job.poster
            &&& !vault.claimed
            &&& job.status == JobStatus::Expired || ((job.status == JobStatus::Open || job.status
                == JobStatus::Accepted || job.status == JobStatus::Submitted) && now
                > job.deadline)
        },
{
}

} // verus!
