use colosseum::dispute_resolver::errors::DisputeResolverError;
use colosseum::dispute_resolver::instructions::resolve_dispute::RESOLVER_AUTHORITY;
use colosseum::dispute_resolver::instructions::{create_dispute, resolve_dispute, submit_evidence};
use colosseum::dispute_resolver::state::{
    DisputeAccount, DisputeCounter, DisputeStatus, ResolutionOutcome,
};
use colosseum::job_escrow::state::{JobAccount, JobStatus};
use colosseum::pubkey::Pubkey;

fn key(b: u8) -> Pubkey {
    Pubkey { bytes: [b; 32] }
}

/// The escrow record of a disputed job between poster 1 and worker 2.
fn escrow_job() -> JobAccount {
    JobAccount {
        job_id: 1,
        poster: key(1),
        worker: key(2),
        description: [0u8; 512],
        description_len: 0,
        requirements: [0u8; 1024],
        requirements_len: 0,
        payment_lamports: 1,
        deadline: 10,
        status: JobStatus::Disputed,
        deliverable: [0u8; 256],
        deliverable_len: 0,
        created_at: 0,
        updated_at: 0,
        bump: 0,
    }
}

fn open_dispute(counter: &mut DisputeCounter) -> DisputeAccount {
    let mut reason = [0u8; 512];
    reason[..4].copy_from_slice(b"late");
    create_dispute::handler(key(2), key(1), key(2), counter, key(30), key(30), &escrow_job(), reason, 4, 100, 8, 9).unwrap()
}

#[test]
fn create_dispute_record_and_counter() {
    let mut counter = DisputeCounter { count: 0, bump: 0 };
    let d = open_dispute(&mut counter);
    assert_eq!(d.job, key(30));
    assert_eq!(d.initiator, key(2));
    assert_eq!(d.poster, key(1));
    assert_eq!(d.worker, key(2));
    assert_eq!(&d.reason[..4], b"late");
    assert_eq!(d.reason_len, 4);
    assert_eq!(d.resolution, [0u8; 1024]);
    assert_eq!(d.resolution_len, 0);
    assert_eq!(d.outcome, None);
    assert_eq!(d.status, DisputeStatus::Open);
    assert!(!d.resolved);
    assert_eq!(d.created_at, 100);
    assert_eq!(d.resolved_at, 0);
    assert_eq!(d.bump, 8);
    // A fresh counter starts at one and then counts this dispute.
    assert_eq!(counter.count, 2);
    assert_eq!(counter.bump, 9);
    open_dispute(&mut counter);
    assert_eq!(counter.count, 3);
    assert_eq!(counter.bump, 9);
}

#[test]
fn create_dispute_errors() {
    let mut counter = DisputeCounter { count: 0, bump: 0 };
    assert_eq!(
        create_dispute::handler(key(2), key(1), key(2), &mut counter, key(30), key(30), &escrow_job(), [0u8; 512], 513, 0, 0, 0).err(),
        Some(DisputeResolverError::ReasonTooLong)
    );
    assert_eq!(
        create_dispute::handler(key(3), key(1), key(2), &mut counter, key(30), key(30), &escrow_job(), [0u8; 512], 0, 0, 0, 0).err(),
        Some(DisputeResolverError::NotParticipant)
    );
    assert_eq!(counter.count, 0);
    let mut full = DisputeCounter { count: u64::MAX, bump: 1 };
    assert_eq!(
        create_dispute::handler(key(1), key(1), key(2), &mut full, key(30), key(30), &escrow_job(), [0u8; 512], 0, 0, 0, 0).err(),
        Some(DisputeResolverError::CounterOverflow)
    );
    assert_eq!(full.count, u64::MAX);
}

#[test]
fn evidence_moves_dispute_under_review() {
    let mut counter = DisputeCounter { count: 0, bump: 0 };
    let mut d = open_dispute(&mut counter);
    let mut content = [0u8; 256];
    content[..5].copy_from_slice(b"proof");
    assert_eq!(
        submit_evidence::handler(key(1), key(40), &mut d, 1, content, 257, [0u8; 256], 0, 200, 3).err(),
        Some(DisputeResolverError::EvidenceContentTooLong)
    );
    assert_eq!(
        submit_evidence::handler(key(1), key(40), &mut d, 1, content, 5, [0u8; 256], 257, 200, 3).err(),
        Some(DisputeResolverError::EvidenceUrlTooLong)
    );
    assert_eq!(
        submit_evidence::handler(key(7), key(40), &mut d, 1, content, 5, [0u8; 256], 0, 200, 3).err(),
        Some(DisputeResolverError::NotParticipant)
    );
    assert_eq!(d.status, DisputeStatus::Open);
    let e = submit_evidence::handler(key(1), key(40), &mut d, 1, content, 5, [4u8; 256], 10, 200, 3)
        .unwrap();
    assert_eq!(e.dispute, key(40));
    assert_eq!(e.submitter, key(1));
    assert_eq!(&e.content[..5], b"proof");
    assert_eq!(e.content_len, 5);
    assert_eq!(e.url, [4u8; 256]);
    assert_eq!(e.url_len, 10);
    assert_eq!(e.created_at, 200);
    assert_eq!(e.bump, 3);
    assert_eq!(d.status, DisputeStatus::UnderReview);
    assert!(submit_evidence::handler(key(2), key(40), &mut d, 1, content, 5, [0u8; 256], 0, 201, 3).is_ok());
    assert_eq!(d.status, DisputeStatus::UnderReview);
}

#[test]
fn resolution_is_final() {
    let mut counter = DisputeCounter { count: 0, bump: 0 };
    let mut d = open_dispute(&mut counter);
    let resolver = Pubkey { bytes: RESOLVER_AUTHORITY };
    let mut text = [0u8; 1024];
    text[..2].copy_from_slice(b"ok");
    assert_eq!(
        resolve_dispute::handler(key(1), &mut d, text, 2, ResolutionOutcome::PosterWins, 300),
        Err(DisputeResolverError::NotResolver)
    );
    assert_eq!(
        resolve_dispute::handler(resolver, &mut d, text, 1025, ResolutionOutcome::PosterWins, 300),
        Err(DisputeResolverError::ResolutionTooLong)
    );
    assert_eq!(
        resolve_dispute::handler(
            resolver, &mut d, text, 2,
            ResolutionOutcome::Split { poster_share_bps: 10_001 }, 300
        ),
        Err(DisputeResolverError::InvalidSplitPercentage)
    );
    assert_eq!(d.status, DisputeStatus::Open);
    assert_eq!(
        resolve_dispute::handler(
            resolver, &mut d, text, 2,
            ResolutionOutcome::Split { poster_share_bps: 10_000 }, 300
        ),
        Ok(())
    );
    assert_eq!(d.status, DisputeStatus::Resolved);
    assert!(d.resolved);
    assert_eq!(d.outcome, Some(ResolutionOutcome::Split { poster_share_bps: 10_000 }));
    assert_eq!(&d.resolution[..2], b"ok");
    assert_eq!(d.resolution_len, 2);
    assert_eq!(d.resolved_at, 300);
    assert_eq!(
        resolve_dispute::handler(resolver, &mut d, text, 2, ResolutionOutcome::Dismissed, 400),
        Err(DisputeResolverError::InvalidDisputeStatus)
    );
    assert_eq!(
        submit_evidence::handler(key(1), key(40), &mut d, 1, [0u8; 256], 0, [0u8; 256], 0, 401, 3).err(),
        Some(DisputeResolverError::InvalidDisputeStatus)
    );
    assert_eq!(d.resolved_at, 300);
}

#[test]
fn resolved_flag_alone_refuses() {
    let mut counter = DisputeCounter { count: 0, bump: 0 };
    let mut d = open_dispute(&mut counter);
    d.resolved = true;
    let resolver = Pubkey { bytes: RESOLVER_AUTHORITY };
    assert_eq!(
        resolve_dispute::handler(resolver, &mut d, [0u8; 1024], 0, ResolutionOutcome::WorkerWins, 1),
        Err(DisputeResolverError::AlreadyResolved)
    );
    assert_eq!(
        submit_evidence::handler(key(1), key(40), &mut d, 1, [0u8; 256], 0, [0u8; 256], 0, 1, 3).err(),
        Some(DisputeResolverError::AlreadyResolved)
    );
}

#[test]
fn dispute_parties_come_from_the_job() {
    let mut counter = DisputeCounter { count: 0, bump: 0 };
    // The job record must be the disputed job's.
    assert_eq!(
        create_dispute::handler(key(1), key(1), key(2), &mut counter, key(30), key(31), &escrow_job(), [0u8; 512], 0, 0, 0, 0).err(),
        Some(DisputeResolverError::JobNotFound)
    );
    // A signer naming itself poster of someone else's job is refused.
    assert_eq!(
        create_dispute::handler(key(7), key(7), key(2), &mut counter, key(30), key(30), &escrow_job(), [0u8; 512], 0, 0, 0, 0).err(),
        Some(DisputeResolverError::NotParticipant)
    );
    assert_eq!(
        create_dispute::handler(key(1), key(1), key(7), &mut counter, key(30), key(30), &escrow_job(), [0u8; 512], 0, 0, 0, 0).err(),
        Some(DisputeResolverError::NotParticipant)
    );
    assert_eq!(counter.count, 0);
}
