use colosseum::colosseum_programs::agent_registry::{
    register_agent, update_agent, verify_agent, Agent,
};
use colosseum::colosseum_programs::dispute_resolver::{raise_dispute, resolve_dispute};
use colosseum::colosseum_programs::errors::ColosseumError;
use colosseum::colosseum_programs::job_escrow::{
    accept_job, approve_work, cancel_job, dispute_job, expire_job, post_job, submit_work, Job,
    STATUS_ASSIGNED, STATUS_CANCELLED, STATUS_COMPLETED, STATUS_DISPUTED, STATUS_EXPIRED,
    STATUS_OPEN, STATUS_SUBMITTED,
};
use colosseum::colosseum_programs::reputation::{
    mint_reputation_nft, rate_agent, recalculate_tier,
};
use colosseum::pubkey::Pubkey;

fn key(b: u8) -> Pubkey {
    Pubkey { bytes: [b; 32] }
}

fn new_agent(authority: Pubkey) -> Agent {
    register_agent(
        authority,
        "TestBot".to_string(),
        vec!["code-review".to_string(), "audit".to_string()],
        100_000_000,
        1_000,
        254,
    )
    .unwrap()
}

fn new_job(poster: Pubkey, payment: u64, deadline: i64) -> Job {
    post_job(
        poster,
        "job-1".to_string(),
        "Review my code".to_string(),
        vec!["code-review".to_string()],
        payment,
        deadline,
        1_000,
        253,
    )
    .unwrap()
}

#[test]
fn test_register_agent() {
    let payer = key(7);
    let res = register_agent(
        payer,
        "TestBot".to_string(),
        vec!["code-review".to_string(), "audit".to_string()],
        100_000_000,
        1_700_000_000,
        255,
    );
    assert!(res.is_ok(), "register_agent failed: {:?}", res.err());
}

#[test]
fn register_agent_fills_record() {
    let agent = new_agent(key(1));
    assert_eq!(agent.authority, key(1));
    assert_eq!(&agent.name[..7], b"TestBot");
    assert!(agent.name[7..].iter().all(|b| *b == 0));
    assert_eq!(agent.name_len, 7);
    assert_eq!(agent.capabilities.len(), 2);
    assert_eq!(&agent.capabilities[0][..11], b"code-review");
    assert_eq!(agent.capabilities[0][11], 0);
    assert_eq!(&agent.capabilities[1][..5], b"audit");
    assert_eq!(agent.capability_count, 2);
    assert_eq!(agent.stake, 100_000_000);
    assert!(agent.active);
    assert_eq!(agent.tier, 0);
    assert_eq!(agent.reputation_nft_mint, key(0));
    assert_eq!(agent.registered_at, 1_000);
    assert_eq!(agent.bump, 254);
    assert!(!agent.world_id_verified);
    assert_eq!(agent.world_id_hash, [0u8; 32]);
    assert_eq!(agent.swig_wallet, key(0));
}

#[test]
fn register_agent_limits() {
    let long_name = "a".repeat(33);
    assert_eq!(
        register_agent(key(1), long_name, vec![], 10_000_000, 0, 0).err(),
        Some(ColosseumError::NameTooLong)
    );
    // 32 bytes is the limit, counted in bytes not characters
    assert!(register_agent(key(1), "a".repeat(32), vec![], 10_000_000, 0, 0).is_ok());
    assert_eq!(
        register_agent(key(1), "é".repeat(17), vec![], 10_000_000, 0, 0).err(),
        Some(ColosseumError::NameTooLong)
    );
    let caps: Vec<String> = (0..11).map(|i| format!("cap{}", i)).collect();
    assert_eq!(
        register_agent(key(1), "bot".to_string(), caps, 10_000_000, 0, 0).err(),
        Some(ColosseumError::TooManyCapabilities)
    );
    assert_eq!(
        register_agent(key(1), "bot".to_string(), vec![], 9_999_999, 0, 0).err(),
        Some(ColosseumError::StakeTooLow)
    );
    assert!(register_agent(key(1), "bot".to_string(), vec![], 10_000_000, 0, 0).is_ok());
}

#[test]
fn update_agent_replaces_capabilities_and_activity() {
    let mut agent = new_agent(key(1));
    update_agent(&mut agent, Some(vec!["research".to_string()]), Some(false));
    assert_eq!(agent.capabilities.len(), 1);
    assert_eq!(&agent.capabilities[0][..8], b"research");
    assert_eq!(agent.capability_count, 1);
    assert!(!agent.active);
    update_agent(&mut agent, None, Some(true));
    assert_eq!(agent.capability_count, 1);
    assert!(agent.active);
    update_agent(&mut agent, None, None);
    assert!(agent.active);
}

#[test]
fn verify_agent_once() {
    let mut agent = new_agent(key(1));
    assert_eq!(
        verify_agent(key(2), &mut agent, [9u8; 32], key(3)),
        Err(ColosseumError::Unauthorized)
    );
    assert!(!agent.world_id_verified);
    assert_eq!(verify_agent(key(1), &mut agent, [9u8; 32], key(3)), Ok(()));
    assert!(agent.world_id_verified);
    assert_eq!(agent.world_id_hash, [9u8; 32]);
    assert_eq!(agent.swig_wallet, key(3));
    assert_eq!(
        verify_agent(key(1), &mut agent, [8u8; 32], key(4)),
        Err(ColosseumError::AlreadyVerified)
    );
    assert_eq!(agent.world_id_hash, [9u8; 32]);
}

#[test]
fn post_job_fills_record_and_checks_limits() {
    let job = new_job(key(1), 5_000_000, 2_000);
    assert_eq!(&job.job_id[..5], b"job-1");
    assert_eq!(job.job_id_len, 5);
    assert_eq!(job.poster, key(1));
    assert_eq!(job.worker, key(0));
    assert!(!job.worker_assigned);
    assert_eq!(&job.description[..14], b"Review my code");
    assert_eq!(job.description_len, 14);
    assert_eq!(job.requirement_count, 1);
    assert_eq!(job.payment, 5_000_000);
    assert_eq!(job.deadline, 2_000);
    assert_eq!(job.status, STATUS_OPEN);
    assert_eq!(job.deliverable_len, 0);
    assert_eq!(job.created_at, 1_000);

    let r = post_job(key(1), "x".repeat(33), "d".to_string(), vec![], 1_000_000, 5, 0, 0);
    assert_eq!(r.err(), Some(ColosseumError::NameTooLong));
    let r = post_job(key(1), "x".to_string(), "d".repeat(129), vec![], 1_000_000, 5, 0, 0);
    assert_eq!(r.err(), Some(ColosseumError::NameTooLong));
    let r = post_job(key(1), "x".to_string(), "d".to_string(), vec![], 999_999, 5, 0, 0);
    assert_eq!(r.err(), Some(ColosseumError::PaymentTooLow));
}

#[test]
fn job_happy_path_pays_worker() {
    let poster = key(1);
    let worker = key(2);
    let agent = new_agent(worker);
    let mut job = new_job(poster, 5_000_000, 2_000);
    assert_eq!(accept_job(worker, &mut job, &agent, 1_500), Ok(()));
    assert_eq!(job.status, STATUS_ASSIGNED);
    assert_eq!(job.worker, worker);
    assert!(job.worker_assigned);
    assert_eq!(submit_work(worker, &mut job, "ipfs://result".to_string()), Ok(()));
    assert_eq!(job.status, STATUS_SUBMITTED);
    assert_eq!(&job.deliverable[..13], b"ipfs://result");
    assert_eq!(job.deliverable_len, 13);
    let mut job_lamports = 7_000_000u64;
    let mut worker_lamports = 10u64;
    assert_eq!(
        approve_work(poster, worker, &mut job, &mut job_lamports, &mut worker_lamports),
        Ok(())
    );
    assert_eq!(job.status, STATUS_COMPLETED);
    assert_eq!(job_lamports, 2_000_000);
    assert_eq!(worker_lamports, 5_000_010);
    // A completed job refuses everything else.
    assert_eq!(
        approve_work(poster, worker, &mut job, &mut job_lamports, &mut worker_lamports),
        Err(ColosseumError::JobNotOpen)
    );
    assert_eq!(
        cancel_job(poster, &mut job, &mut job_lamports, &mut worker_lamports),
        Err(ColosseumError::JobNotOpen)
    );
    assert_eq!(
        expire_job(poster, &mut job, &mut job_lamports, &mut worker_lamports, 5_000),
        Err(ColosseumError::JobNotOpen)
    );
    assert_eq!(job_lamports, 2_000_000);
}

#[test]
fn accept_job_errors() {
    let poster = key(1);
    let worker = key(2);
    let mut agent = new_agent(worker);
    let mut job = new_job(poster, 5_000_000, 2_000);
    assert_eq!(accept_job(worker, &mut job, &agent, 2_000), Err(ColosseumError::DeadlinePassed));
    update_agent(&mut agent, None, Some(false));
    assert_eq!(accept_job(worker, &mut job, &agent, 1_500), Err(ColosseumError::AgentNotActive));
    update_agent(&mut agent, None, Some(true));
    assert_eq!(accept_job(worker, &mut job, &agent, 1_500), Ok(()));
    assert_eq!(accept_job(worker, &mut job, &agent, 1_500), Err(ColosseumError::JobNotOpen));
}

#[test]
fn submit_and_approve_errors() {
    let poster = key(1);
    let worker = key(2);
    let agent = new_agent(worker);
    let mut job = new_job(poster, 5_000_000, 2_000);
    assert_eq!(
        submit_work(key(0), &mut job, "x".to_string()),
        Err(ColosseumError::JobNotOpen)
    );
    accept_job(worker, &mut job, &agent, 1_500).unwrap();
    assert_eq!(
        submit_work(key(3), &mut job, "x".to_string()),
        Err(ColosseumError::NotAssignedWorker)
    );
    let (mut a, mut b) = (5_000_000u64, 0u64);
    assert_eq!(
        approve_work(key(3), worker, &mut job, &mut a, &mut b),
        Err(ColosseumError::NotJobPoster)
    );
    assert_eq!(
        approve_work(poster, key(3), &mut job, &mut a, &mut b),
        Err(ColosseumError::NotAssignedWorker)
    );
    assert_eq!(
        approve_work(poster, worker, &mut job, &mut a, &mut b),
        Err(ColosseumError::JobNotOpen)
    );
    assert_eq!((a, b), (5_000_000, 0));
}

#[test]
fn cancel_and_expire() {
    let poster = key(1);
    let mut job = new_job(poster, 5_000_000, 2_000);
    let (mut job_l, mut poster_l) = (6_000_000u64, 1u64);
    assert_eq!(
        cancel_job(key(9), &mut job, &mut job_l, &mut poster_l),
        Err(ColosseumError::NotJobPoster)
    );
    assert_eq!(cancel_job(poster, &mut job, &mut job_l, &mut poster_l), Ok(()));
    assert_eq!(job.status, STATUS_CANCELLED);
    assert_eq!((job_l, poster_l), (1_000_000, 5_000_001));

    let mut job = new_job(poster, 5_000_000, 2_000);
    let (mut job_l, mut poster_l) = (5_000_000u64, 0u64);
    assert_eq!(
        expire_job(poster, &mut job, &mut job_l, &mut poster_l, 2_000),
        Err(ColosseumError::DeadlineNotPassed)
    );
    assert_eq!(
        expire_job(key(9), &mut job, &mut job_l, &mut poster_l, 2_001),
        Err(ColosseumError::NotJobPoster)
    );
    assert_eq!((job_l, poster_l), (5_000_000, 0));
    assert_eq!(expire_job(poster, &mut job, &mut job_l, &mut poster_l, 2_001), Ok(()));
    assert_eq!(job.status, STATUS_EXPIRED);
    assert_eq!((job_l, poster_l), (0, 5_000_000));
}

#[test]
fn dispute_flow_split_ruling() {
    let poster = key(1);
    let worker = key(2);
    let agent = new_agent(worker);
    let mut job = new_job(poster, 5_000_001, 2_000);
    assert_eq!(
        dispute_job(poster, &mut job, "too early".to_string()),
        Err(ColosseumError::JobNotOpen)
    );
    accept_job(worker, &mut job, &agent, 1_500).unwrap();
    assert_eq!(
        dispute_job(key(5), &mut job, "spam".to_string()),
        Err(ColosseumError::NotDisputeParty)
    );
    let job_key = key(40);
    assert_eq!(
        raise_dispute(worker, job_key, &job, "late".to_string(), 1_600, 9).err(),
        Some(ColosseumError::JobNotOpen)
    );
    assert_eq!(dispute_job(worker, &mut job, "unpaid".to_string()), Ok(()));
    assert_eq!(job.status, STATUS_DISPUTED);
    assert_eq!(
        raise_dispute(key(5), job_key, &job, "late".to_string(), 1_600, 9).err(),
        Some(ColosseumError::NotDisputeParty)
    );
    assert_eq!(
        raise_dispute(worker, job_key, &job, "r".repeat(257), 1_600, 9).err(),
        Some(ColosseumError::NameTooLong)
    );
    let mut dispute = raise_dispute(worker, job_key, &job, "late".to_string(), 1_600, 9).unwrap();
    assert_eq!(dispute.job, job_key);
    assert_eq!(dispute.initiator, worker);
    assert_eq!(&dispute.reason[..4], b"late");
    assert_eq!(dispute.reason_len, 4);
    assert!(!dispute.resolved);
    assert_eq!(dispute.ruling, 0);

    let (mut job_l, mut poster_l, mut worker_l) = (5_000_001u64, 0u64, 0u64);
    assert_eq!(
        resolve_dispute(
            worker, &mut dispute, job_key, &mut job, poster, worker, &mut job_l, &mut poster_l, &mut worker_l,
            "fair".to_string(), 3
        ),
        Err(ColosseumError::NotJobPoster)
    );
    assert_eq!(
        resolve_dispute(
            poster, &mut dispute, key(41), &mut job, poster, worker, &mut job_l, &mut poster_l, &mut worker_l,
            "fair".to_string(), 3
        ),
        Err(ColosseumError::JobNotOpen)
    );
    assert_eq!(
        resolve_dispute(
            poster, &mut dispute, job_key, &mut job, poster, worker, &mut job_l, &mut poster_l, &mut worker_l,
            "fair".to_string(), 4
        ),
        Err(ColosseumError::InvalidDisputeRuling)
    );
    assert_eq!(
        resolve_dispute(
            poster, &mut dispute, job_key, &mut job, key(6), worker, &mut job_l, &mut poster_l, &mut worker_l,
            "fair".to_string(), 3
        ),
        Err(ColosseumError::NotJobPoster)
    );
    assert_eq!(
        resolve_dispute(
            poster, &mut dispute, job_key, &mut job, poster, key(6), &mut job_l, &mut poster_l, &mut worker_l,
            "fair".to_string(), 3
        ),
        Err(ColosseumError::NotAssignedWorker)
    );
    assert_eq!((job_l, poster_l, worker_l), (5_000_001, 0, 0));
    assert!(!dispute.resolved);
    assert_eq!(
        resolve_dispute(
            poster, &mut dispute, job_key, &mut job, poster, worker, &mut job_l, &mut poster_l, &mut worker_l,
            "fair".to_string(), 3
        ),
        Ok(())
    );
    assert_eq!(poster_l, 2_500_000);
    assert_eq!(worker_l, 2_500_001);
    assert_eq!(job_l, 0);
    assert_eq!(job.status, STATUS_CANCELLED);
    assert!(dispute.resolved);
    assert_eq!(dispute.ruling, 3);
    assert_eq!(&dispute.resolution[..4], b"fair");
    assert_eq!(dispute.resolution_len, 4);
    assert_eq!(
        resolve_dispute(
            poster, &mut dispute, job_key, &mut job, poster, worker, &mut job_l, &mut poster_l, &mut worker_l,
            "again".to_string(), 1
        ),
        Err(ColosseumError::DisputeAlreadyResolved)
    );
}

#[test]
fn rulings_favor_poster_or_worker() {
    let poster = key(1);
    let worker = key(2);
    let agent = new_agent(worker);
    for (ruling, poster_gets, worker_gets, status) in [
        (1u8, 3_000_000u64, 0u64, STATUS_CANCELLED),
        (2u8, 0u64, 3_000_000u64, STATUS_COMPLETED),
    ] {
        let mut job = new_job(poster, 3_000_000, 2_000);
        accept_job(worker, &mut job, &agent, 1_500).unwrap();
        dispute_job(poster, &mut job, "why".to_string()).unwrap();
        let mut dispute = raise_dispute(poster, key(40), &job, "why".to_string(), 0, 0).unwrap();
        let (mut j, mut p, mut w) = (3_000_000u64, 0u64, 0u64);
        // A wrong wallet for the side that receives nothing does not matter.
        let (other_poster, other_worker) = if ruling == 2 { (key(8), worker) } else { (poster, key(8)) };
        let mut probe = dispute;
        let mut probe_job = job.clone();
        let (mut pj, mut pp, mut pw) = (3_000_000u64, 0u64, 0u64);
        assert_eq!(
            resolve_dispute(
                poster, &mut probe, key(40), &mut probe_job, other_poster, other_worker,
                &mut pj, &mut pp, &mut pw, "ruled".to_string(), ruling,
            ),
            Ok(())
        );
        resolve_dispute(
            poster, &mut dispute, key(40), &mut job, poster, worker, &mut j, &mut p, &mut w,
            "ruled".to_string(), ruling,
        )
        .unwrap();
        assert_eq!((j, p, w), (0, poster_gets, worker_gets));
        assert_eq!(job.status, status);
    }
}

#[test]
fn recalculate_tier_thresholds() {
    assert_eq!(recalculate_tier(100, 0, 0), 0);
    assert_eq!(recalculate_tier(25, 45, 10), 3);
    assert_eq!(recalculate_tier(25, 44, 10), 2);
    assert_eq!(recalculate_tier(24, 50, 10), 2);
    assert_eq!(recalculate_tier(10, 40, 10), 2);
    assert_eq!(recalculate_tier(10, 39, 10), 1);
    assert_eq!(recalculate_tier(9, 50, 10), 1);
    assert_eq!(recalculate_tier(3, 30, 10), 1);
    assert_eq!(recalculate_tier(3, 29, 10), 0);
    assert_eq!(recalculate_tier(2, 50, 10), 0);
    assert_eq!(recalculate_tier(u32::MAX, u32::MAX, u16::MAX), 3);
}

#[test]
fn rate_agent_updates_score_and_tier() {
    let agent_owner = key(2);
    let mut agent = new_agent(agent_owner);
    agent.jobs_completed = 3;
    let rec = rate_agent(
        key(3), key(20), &mut agent, agent_owner, "job-1".to_string(), 4,
        "great".to_string(), 1_000, 7,
    )
    .unwrap();
    assert_eq!(rec.agent, key(20));
    assert_eq!(rec.rater, key(3));
    assert_eq!(rec.job_ref, [20u8; 32]);
    assert_eq!(rec.job_ref_len, 0);
    assert_eq!(rec.score, 4);
    assert_eq!(&rec.review[..5], b"great");
    assert_eq!(rec.review_len, 5);
    assert_eq!(rec.timestamp, 1_000);
    assert_eq!(agent.reputation_score, 4);
    assert_eq!(agent.reputation_count, 1);
    assert_eq!(agent.tier, 1);

    assert_eq!(
        rate_agent(key(3), key(20), &mut agent, agent_owner, "j".to_string(), 0, String::new(), 0, 0)
            .err(),
        Some(ColosseumError::InvalidScore)
    );
    assert_eq!(
        rate_agent(key(3), key(20), &mut agent, agent_owner, "j".to_string(), 6, String::new(), 0, 0)
            .err(),
        Some(ColosseumError::InvalidScore)
    );
    assert_eq!(
        rate_agent(agent_owner, key(20), &mut agent, agent_owner, "j".to_string(), 5, String::new(), 0, 0)
            .err(),
        Some(ColosseumError::SelfRating)
    );
    assert_eq!(
        rate_agent(key(3), key(20), &mut agent, agent_owner, "j".to_string(), 5, "r".repeat(129), 0, 0)
            .err(),
        Some(ColosseumError::NameTooLong)
    );
    assert_eq!(agent.reputation_count, 1);
}

#[test]
fn mint_reputation_nft_once() {
    let mut agent = new_agent(key(2));
    assert_eq!(
        mint_reputation_nft(key(20), &mut agent, key(30), 50, 1).err(),
        Some(ColosseumError::AgentNotEligibleForNft)
    );
    agent.jobs_completed = 1;
    agent.tier = 2;
    let nft = mint_reputation_nft(key(20), &mut agent, key(30), 50, 1).unwrap();
    assert_eq!(nft.agent, key(20));
    assert_eq!(nft.mint, key(30));
    assert_eq!(nft.tier_at_mint, 2);
    assert_eq!(nft.jobs_at_mint, 1);
    assert_eq!(nft.created_at, 50);
    assert_eq!(agent.reputation_nft_mint, key(30));
    assert_eq!(
        mint_reputation_nft(key(20), &mut agent, key(31), 60, 1).err(),
        Some(ColosseumError::NftAlreadyMinted)
    );
}
