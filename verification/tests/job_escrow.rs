use colosseum::agent_registry::instructions::{deactivate_agent, register_agent};
use colosseum::agent_registry::state::AgentAccount;
use colosseum::job_escrow::errors::JobEscrowError;
use colosseum::job_escrow::instructions::{
    accept_job, approve_work, cancel_job, dispute_job, post_job, refund_expired, submit_work,
};
use colosseum::job_escrow::state::{EscrowVault, JobAccount, JobCounter, JobStatus};
use colosseum::pubkey::Pubkey;

fn key(b: u8) -> Pubkey {
    Pubkey { bytes: [b; 32] }
}

fn agent_of(owner: Pubkey) -> AgentAccount {
    register_agent::handler(owner, key(99), [0u8; 64], 0, [0u8; 256], 0, 100_000_000, 0, 1).unwrap()
}

fn post(counter: &mut JobCounter, job_id: u64, payment: u64) -> (JobAccount, EscrowVault) {
    let mut description = [0u8; 512];
    description[..4].copy_from_slice(b"spec");
    post_job::handler(
        key(1), key(50), counter, job_id, description, 4, [0u8; 1024], 0, payment, 2_000, 1_000,
        11, 12, 13,
    )
    .unwrap()
}

#[test]
fn post_job_creates_open_job_and_vault() {
    let mut counter = JobCounter { count: 0, bump: 0 };
    let (job, vault) = post(&mut counter, 1, 700);
    assert_eq!(job.job_id, 1);
    assert_eq!(job.poster, key(1));
    assert_eq!(job.worker, key(0));
    assert_eq!(&job.description[..4], b"spec");
    assert_eq!(job.description_len, 4);
    assert_eq!(job.payment_lamports, 700);
    assert_eq!(job.deadline, 2_000);
    assert_eq!(job.status, JobStatus::Open);
    assert_eq!(job.deliverable, [0u8; 256]);
    assert_eq!(job.created_at, 1_000);
    assert_eq!(job.updated_at, 1_000);
    assert_eq!(job.bump, 11);
    assert_eq!(vault.job, key(50));
    assert_eq!(vault.amount, 700);
    assert!(!vault.claimed);
    assert_eq!(vault.bump, 13);
    assert_eq!(counter.count, 2);
    assert_eq!(counter.bump, 12);
    // Ids are issued in order.
    let (job2, _) = post(&mut counter, 2, 5);
    assert_eq!(job2.job_id, 2);
    assert_eq!(counter.count, 3);
    assert_eq!(counter.bump, 12);
}

#[test]
fn post_job_errors() {
    let mut counter = JobCounter { count: 0, bump: 0 };
    let d = [0u8; 512];
    let r = [0u8; 1024];
    let h = |c: &mut JobCounter, id: u64, dl: u16, rl: u16, pay: u64, deadline: i64| {
        post_job::handler(key(1), key(2), c, id, d, dl, r, rl, pay, deadline, 1_000, 0, 0, 0)
            .err()
    };
    assert_eq!(h(&mut counter, 1, 513, 0, 1, 2_000), Some(JobEscrowError::DescriptionTooLong));
    assert_eq!(h(&mut counter, 1, 512, 1025, 1, 2_000), Some(JobEscrowError::RequirementsTooLong));
    assert_eq!(h(&mut counter, 1, 0, 0, 0, 2_000), Some(JobEscrowError::ZeroPayment));
    assert_eq!(h(&mut counter, 1, 0, 0, 1, 1_000), Some(JobEscrowError::InvalidDeadline));
    assert_eq!(h(&mut counter, 2, 0, 0, 1, 2_000), Some(JobEscrowError::InvalidJobStatus));
    assert_eq!(counter.count, 0);
    let mut full = JobCounter { count: u64::MAX, bump: 3 };
    assert_eq!(h(&mut full, u64::MAX, 0, 0, 1, 2_000), Some(JobEscrowError::CounterOverflow));
    assert_eq!(full.count, u64::MAX);
}

#[test]
fn job_lifecycle_to_completion() {
    let mut counter = JobCounter { count: 0, bump: 0 };
    let (mut job, mut vault) = post(&mut counter, 1, 700);
    let worker = key(2);
    assert_eq!(accept_job::handler(key(1), &agent_of(key(1)), &mut job, 1_500), Err(JobEscrowError::SelfAssignment));
    assert_eq!(accept_job::handler(worker, &agent_of(worker), &mut job, 2_000), Err(JobEscrowError::JobExpired));
    assert_eq!(accept_job::handler(worker, &agent_of(worker), &mut job, 1_500), Ok(()));
    assert_eq!(job.status, JobStatus::Accepted);
    assert_eq!(job.worker, worker);
    assert_eq!(job.updated_at, 1_500);
    assert_eq!(accept_job::handler(key(3), &agent_of(key(3)), &mut job, 1_500), Err(JobEscrowError::InvalidJobStatus));

    let mut deliverable = [0u8; 256];
    deliverable[..3].copy_from_slice(b"url");
    assert_eq!(
        submit_work::handler(key(3), &mut job, deliverable, 3, 1_600),
        Err(JobEscrowError::NotWorker)
    );
    assert_eq!(
        submit_work::handler(worker, &mut job, deliverable, 257, 1_600),
        Err(JobEscrowError::DeliverableTooLong)
    );
    assert_eq!(
        submit_work::handler(worker, &mut job, deliverable, 3, 2_000),
        Err(JobEscrowError::JobExpired)
    );
    assert_eq!(submit_work::handler(worker, &mut job, deliverable, 3, 1_600), Ok(()));
    assert_eq!(job.status, JobStatus::Submitted);
    assert_eq!(&job.deliverable[..3], b"url");
    assert_eq!(job.deliverable_len, 3);
    assert_eq!(
        submit_work::handler(worker, &mut job, deliverable, 3, 1_600),
        Err(JobEscrowError::InvalidJobStatus)
    );

    let (mut vault_l, mut worker_l) = (1_000u64, 5u64);
    assert_eq!(
        approve_work::handler(key(9), worker, &mut job, &mut vault, &mut vault_l, &mut worker_l, 1_700),
        Err(JobEscrowError::NotPoster)
    );
    assert_eq!(
        approve_work::handler(key(1), key(9), &mut job, &mut vault, &mut vault_l, &mut worker_l, 1_700),
        Err(JobEscrowError::NotWorker)
    );
    assert_eq!(
        approve_work::handler(key(1), worker, &mut job, &mut vault, &mut vault_l, &mut worker_l, 1_700),
        Ok(())
    );
    assert_eq!(job.status, JobStatus::Completed);
    assert_eq!(job.updated_at, 1_700);
    assert!(vault.claimed);
    assert_eq!(vault.amount, 0);
    assert_eq!((vault_l, worker_l), (300, 705));
    // Paid out once: every later settlement is refused.
    assert_eq!(
        approve_work::handler(key(1), worker, &mut job, &mut vault, &mut vault_l, &mut worker_l, 1_800),
        Err(JobEscrowError::InvalidJobStatus)
    );
    assert_eq!(
        refund_expired::handler(key(1), &mut job, &mut vault, &mut vault_l, &mut worker_l, 9_000),
        Err(JobEscrowError::DeadlineNotPassed)
    );
    assert_eq!(
        cancel_job::handler(key(1), &mut job, &mut vault, &mut vault_l, &mut worker_l, 9_000),
        Err(JobEscrowError::NotOpenForCancellation)
    );
    assert_eq!(dispute_job::handler(key(1), &mut job, 9_000), Err(JobEscrowError::InvalidJobStatus));
    assert_eq!((vault_l, worker_l), (300, 705));
}

#[test]
fn claimed_vault_is_refused() {
    let mut counter = JobCounter { count: 0, bump: 0 };
    let (mut job, mut vault) = post(&mut counter, 1, 700);
    vault.claimed = true;
    let (mut a, mut b) = (700u64, 0u64);
    assert_eq!(
        cancel_job::handler(key(1), &mut job, &mut vault, &mut a, &mut b, 1_500),
        Err(JobEscrowError::AlreadyClaimed)
    );
    assert_eq!(
        refund_expired::handler(key(1), &mut job, &mut vault, &mut a, &mut b, 2_500),
        Err(JobEscrowError::AlreadyClaimed)
    );
    job.status = JobStatus::Submitted;
    job.worker = key(2);
    assert_eq!(
        approve_work::handler(key(1), key(2), &mut job, &mut vault, &mut a, &mut b, 1_500),
        Err(JobEscrowError::AlreadyClaimed)
    );
    assert_eq!((a, b), (700, 0));
}

#[test]
fn cancel_open_job_refunds_poster() {
    let mut counter = JobCounter { count: 0, bump: 0 };
    let (mut job, mut vault) = post(&mut counter, 1, 700);
    let (mut vault_l, mut poster_l) = (900u64, 100u64);
    assert_eq!(
        cancel_job::handler(key(2), &mut job, &mut vault, &mut vault_l, &mut poster_l, 1_500),
        Err(JobEscrowError::NotPoster)
    );
    assert_eq!(cancel_job::handler(key(1), &mut job, &mut vault, &mut vault_l, &mut poster_l, 1_500), Ok(()));
    assert_eq!(job.status, JobStatus::Refunded);
    assert!(vault.claimed);
    assert_eq!(vault.amount, 0);
    assert_eq!((vault_l, poster_l), (200, 800));
}

#[test]
fn cancel_accepted_job_refunds_poster() {
    let mut counter = JobCounter { count: 0, bump: 0 };
    let (mut job, mut vault) = post(&mut counter, 1, 700);
    accept_job::handler(key(2), &agent_of(key(2)), &mut job, 1_500).unwrap();
    let (mut vault_l, mut poster_l) = (700u64, 0u64);
    assert_eq!(cancel_job::handler(key(1), &mut job, &mut vault, &mut vault_l, &mut poster_l, 1_600), Ok(()));
    assert_eq!((vault_l, poster_l), (0, 700));
}

#[test]
fn refund_after_deadline() {
    let mut counter = JobCounter { count: 0, bump: 0 };
    let (mut job, mut vault) = post(&mut counter, 1, 700);
    accept_job::handler(key(2), &agent_of(key(2)), &mut job, 1_500).unwrap();
    let (mut vault_l, mut poster_l) = (700u64, 0u64);
    assert_eq!(
        refund_expired::handler(key(2), &mut job, &mut vault, &mut vault_l, &mut poster_l, 2_001),
        Err(JobEscrowError::NotPoster)
    );
    assert_eq!(
        refund_expired::handler(key(1), &mut job, &mut vault, &mut vault_l, &mut poster_l, 2_000),
        Err(JobEscrowError::DeadlineNotPassed)
    );
    assert_eq!(refund_expired::handler(key(1), &mut job, &mut vault, &mut vault_l, &mut poster_l, 2_001), Ok(()));
    assert_eq!(job.status, JobStatus::Refunded);
    assert_eq!(job.updated_at, 2_001);
    assert_eq!((vault_l, poster_l), (0, 700));
    // An expired-status job is refundable regardless of time.
    let (mut job2, mut vault2) = post(&mut counter, 2, 10);
    job2.status = JobStatus::Expired;
    let (mut v, mut p) = (10u64, 0u64);
    assert_eq!(refund_expired::handler(key(1), &mut job2, &mut vault2, &mut v, &mut p, 0), Ok(()));
    assert_eq!((v, p), (0, 10));
}

#[test]
fn disputed_job_is_frozen() {
    let mut counter = JobCounter { count: 0, bump: 0 };
    let (mut job, mut vault) = post(&mut counter, 1, 700);
    assert_eq!(dispute_job::handler(key(1), &mut job, 1_500), Err(JobEscrowError::InvalidJobStatus));
    accept_job::handler(key(2), &agent_of(key(2)), &mut job, 1_500).unwrap();
    assert_eq!(dispute_job::handler(key(3), &mut job, 1_500), Err(JobEscrowError::Unauthorized));
    assert_eq!(dispute_job::handler(key(2), &mut job, 1_550), Ok(()));
    assert_eq!(job.status, JobStatus::Disputed);
    assert_eq!(job.updated_at, 1_550);
    let (mut a, mut b) = (700u64, 0u64);
    assert_eq!(
        refund_expired::handler(key(1), &mut job, &mut vault, &mut a, &mut b, 9_000),
        Err(JobEscrowError::DeadlineNotPassed)
    );
    assert_eq!(
        cancel_job::handler(key(1), &mut job, &mut vault, &mut a, &mut b, 9_000),
        Err(JobEscrowError::NotOpenForCancellation)
    );
    assert_eq!((a, b), (700, 0));
}

#[test]
fn status_predicates() {
    assert!(JobStatus::Open.can_accept());
    assert!(!JobStatus::Accepted.can_accept());
    assert!(JobStatus::Accepted.can_submit());
    assert!(!JobStatus::Open.can_submit());
    assert!(JobStatus::Submitted.can_approve());
    assert!(!JobStatus::Accepted.can_approve());
    assert!(JobStatus::Submitted.can_dispute());
    assert!(JobStatus::Accepted.can_dispute());
    assert!(!JobStatus::Open.can_dispute());
    assert!(JobStatus::Expired.can_refund());
    assert!(!JobStatus::Open.can_refund());
    assert!(JobStatus::Open.can_cancel());
    assert!(JobStatus::Accepted.can_cancel());
    assert!(!JobStatus::Submitted.can_cancel());
}

#[test]
fn deactivated_agent_cannot_accept() {
    let mut counter = JobCounter { count: 0, bump: 0 };
    let (mut job, _vault) = post(&mut counter, 1, 700);
    let worker = key(2);
    let mut agent = agent_of(worker);
    assert_eq!(deactivate_agent::handler(worker, &mut agent, 1_400), Ok(()));
    assert_eq!(
        accept_job::handler(worker, &agent, &mut job, 1_500),
        Err(JobEscrowError::AgentNotActive)
    );
    assert_eq!(job.status, JobStatus::Open);
    assert_eq!(job.worker, key(0));
    // Another owner's agent record does not qualify the worker.
    assert_eq!(
        accept_job::handler(worker, &agent_of(key(3)), &mut job, 1_500),
        Err(JobEscrowError::Unauthorized)
    );
    assert_eq!(accept_job::handler(worker, &agent_of(worker), &mut job, 1_500), Ok(()));
}
