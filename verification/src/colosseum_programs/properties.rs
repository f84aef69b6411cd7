use vstd::prelude::*;

use crate::colosseum_programs::agent_registry::{
    is_registered_agent, register_agent_error, verify_agent_error, Agent, AgentTier,
};
use crate::colosseum_programs::dispute_resolver::{
    is_raised_dispute, poster_award, poster_half, raise_dispute_error, resolve_dispute_error, status_after_ruling,
    worker_award, worker_rest, DisputeAccount,
};
use crate::colosseum_programs::job_escrow::{
    accept_job_error, approve_work_error, cancel_job_error, dispute_job_error, expire_job_error,
    is_posted_job, post_job_error, submit_work_error, Job, STATUS_ASSIGNED, STATUS_CANCELLED, STATUS_COMPLETED, STATUS_DISPUTED,
    STATUS_EXPIRED, STATUS_OPEN, STATUS_SUBMITTED,
};
use crate::colosseum_programs::reputation::{
    earned_tier, mint_reputation_nft_error, rate_agent_error, rated_agent,
};
use crate::bytes::utf8;
use crate::pubkey::Pubkey;

verus! {

/// The rank of a tier, from Scout (0) to Legend (3).
pub open spec fn tier_rank(t: AgentTier) -> int {
    match t {
        AgentTier::Scout => 0,
        AgentTier::Rookie => 1,
        AgentTier::Pro => 2,
        AgentTier::Legend => 3,
    }
}

/// More completed jobs never lower the earned tier.
pub proof fn tier_grows_with_jobs(fewer: u32, more: u32, score: u32, count: u16)
    requires
        fewer <= more,
    ensures
        tier_rank(earned_tier(fewer, score, count)) <= tier_rank(earned_tier(more, score, count)),
{
}

/// A higher total score over the same number of ratings never lowers the
/// earned tier.
pub proof fn tier_grows_with_score(jobs: u32, lower: u32, higher: u32, count: u16)
    requires
        lower <= higher,
    ensures
        tier_rank(earned_tier(jobs, lower, count)) <= tier_rank(earned_tier(jobs, higher, count)),
{
}

/// Ratings stored in an agent's record come from valid scores: the total
/// lies between 1 and 5 times the number of ratings.
pub open spec fn ratings_within_scale(agent: Agent) -> bool {
    agent.reputation_count <= agent.reputation_score <= 5 * agent.reputation_count
}

/// An accepted rating keeps the agent's totals within the rating scale.
pub proof fn rating_keeps_scale(agent: Agent, rater: Pubkey, score: u8, review: Seq<char>)
    requires
        ratings_within_scale(agent),
        rate_agent_error(rater, agent, score, review) is None,
        agent.reputation_score + score <= u32::MAX,
        agent.reputation_count < u16::MAX,
    ensures
        ratings_within_scale(rated_agent(agent, score)),
{
}

/// A ruling hands out exactly the escrowed payment, and a split differs
/// between the parties by at most one lamport, in the worker's favour.
pub proof fn ruling_pays_out_exactly(ruling: u8, payment: u64)
    requires
        1 <= ruling <= 3,
    ensures
        poster_award(ruling, payment) + worker_award(ruling, payment) == payment,
        poster_half(payment) <= worker_rest(payment) <= poster_half(payment) + 1,
{
}

/// Completed, disputed, cancelled and expired jobs refuse every job
/// instruction: a job's escrow leaves through at most one of approval,
/// cancellation, expiry or a dispute ruling.
pub proof fn closed_jobs_refuse_job_steps(
    job: Job,
    agent: Agent,
    worker: Pubkey,
    poster: Pubkey,
    caller: Pubkey,
    now: i64,
)
    requires
        job.status == STATUS_COMPLETED || job.status == STATUS_DISPUTED || job.status
            == STATUS_CANCELLED || job.status == STATUS_EXPIRED,
    ensures
        accept_job_error(agent, job, now) is Some,
        submit_work_error(worker, job) is Some,
        approve_work_error(poster, worker, job) is Some,
        dispute_job_error(caller, job) is Some,
        cancel_job_error(poster, job) is Some,
        expire_job_error(poster, job, now) is Some,
{
}

/// A dispute is ruled on once, and the ruling closes its job for good.
pub proof fn dispute_ruled_once(
    caller: Pubkey,
    dispute: DisputeAccount,
    job_key: Pubkey,
    job: Job,
    resolution: Seq<char>,
    ruling: u8,
    other_resolution: Seq<char>,
    other_ruling: u8,
    agent: Agent,
    poster: Pubkey,
    worker: Pubkey,
    other_poster: Pubkey,
    other_worker: Pubkey,
    now: i64,
)
    requires
        resolve_dispute_error(caller, dispute, job_key, job, poster, worker, resolution, ruling)
            is None,
    ensures
        resolve_dispute_error(
            caller,
            DisputeAccount { resolved: true, ..dispute },
            job_key,
            job,
            other_poster,
            other_worker,
            other_resolution,
            other_ruling,
        ) is Some,
        accept_job_error(agent, Job { status: status_after_ruling(ruling), ..job }, now) is Some,
        approve_work_error(caller, worker, Job { status: status_after_ruling(ruling), ..job })
            is Some,
        cancel_job_error(caller, Job { status: status_after_ruling(ruling), ..job }) is Some,
        expire_job_error(caller, Job { status: status_after_ruling(ruling), ..job }, now) is Some,
{
}

/// World ID verification of an agent happens once.
pub proof fn agent_verifies_once(
    authority: Pubkey,
    agent: Agent,
    world_id_hash: [u8; 32],
    swig_wallet: Pubkey,
)
    requires
        verify_agent_error(authority, agent) is None,
    ensures
        verify_agent_error(
            authority,
            Agent { world_id_hash, swig_wallet, world_id_verified: true, ..agent },
        ) is Some,
{
}

/// An agent's reputation NFT is minted once: after a mint with a non-zero
/// mint key, every further mint is refused.
pub proof fn agent_nft_minted_once(agent: Agent, mint_key: Pubkey)
    requires
        mint_reputation_nft_error(agent) is None,
        !mint_key.is_zero(),
    ensures
        mint_reputation_nft_error(Agent { reputation_nft_mint: mint_key, ..agent }) is Some,
{
}

/// A ruling pays shares only to the job's own wallets: when it succeeds,
/// the poster's wallet is the job's poster whenever the poster receives a
/// share, and likewise for the worker.
pub proof fn ruling_pays_only_job_parties(
    caller: Pubkey,
    dispute: DisputeAccount,
    job_key: Pubkey,
    job: Job,
    poster: Pubkey,
    worker: Pubkey,
    resolution: Seq<char>,
    ruling: u8,
)
    requires
        resolve_dispute_error(caller, dispute, job_key, job, poster, worker, resolution, ruling)
            is None,
    ensures
        poster_award(ruling, job.payment) > 0 ==> poster == job.poster,
        worker_award(ruling, job.payment) > 0 ==> worker == job.worker,
{
}

/// An expired job's escrow is refunded only to its poster.
pub proof fn expiry_refunds_only_poster(poster: Pubkey, job: Job, now: i64)
    requires
        expire_job_error(poster, job, now) is None,
    ensures
        poster == job.poster,
{
}

/// After a rating, the agent's tier is the one its jobs and updated totals
/// earn, whatever its tier was before: Legend (3) with at least 25 jobs and
/// an average of at least 4.5, else Pro (2) with at least 10 jobs and an
/// average of at least 4.0, else Rookie (1) with at least 3 jobs and an
/// average of at least 3.0, else Scout (0). So a low rating can lower the
/// tier.
pub proof fn rated_tier_follows_new_totals(agent: Agent, score: u8, previous_tier: u8)
    requires
        agent.reputation_score + score <= u32::MAX,
        agent.reputation_count < u16::MAX,
    ensures
        ({
            let jobs = agent.jobs_completed as int;
            let s = agent.reputation_score + score;
            let c = agent.reputation_count + 1;
            let t = rated_agent(agent, score).tier;
            &&& t == 3 <==> (jobs >= 25 && 2 * s >= 9 * c)
            &&& t == 2 <==> (!(jobs >= 25 && 2 * s >= 9 * c) && jobs >= 10 && s >= 4 * c)
            &&& t == 1 <==> (!(jobs >= 25 && 2 * s >= 9 * c) && !(jobs >= 10 && s >= 4 * c)
                && jobs >= 3 && s >= 3 * c)
            &&& t == 0 <==> (!(jobs >= 25 && 2 * s >= 9 * c) && !(jobs >= 10 && s >= 4 * c)
                && !(jobs >= 3 && s >= 3 * c))
        }),
        rated_agent(Agent { tier: previous_tier, ..agent }, score).tier == rated_agent(
            agent,
            score,
        ).tier,
        rated_agent(agent, score).reputation_score == agent.reputation_score + score,
        rated_agent(agent, score).reputation_count == agent.reputation_count + 1,
{
}

/// The poster expires an open or assigned job once its deadline has passed.
pub proof fn poster_expires_open_or_assigned_job(job: Job, now: i64)
    requires
        job.status == STATUS_OPEN || job.status == STATUS_ASSIGNED,
        now > job.deadline,
    ensures
        expire_job_error(job.poster, job, now) is None,
{
}

/// The poster or the worker disputes an assigned job, and a job whose work
/// was submitted.
pub proof fn parties_dispute_assigned_or_submitted_job(job: Job, disputer: Pubkey)
    requires
        job.status == STATUS_ASSIGNED || job.status == STATUS_SUBMITTED,
        disputer == job.poster || disputer == job.worker,
    ensures
        dispute_job_error(disputer, job) is None,
{
}

/// Exactly when a registration is accepted: a name of at most 32 bytes, at
/// most 10 capabilities and a stake of at least 0.01 SOL (10_000_000
/// lamports).
pub proof fn registration_accepted_exactly_when(
    name: Seq<char>,
    capabilities: Seq<String>,
    stake_amount: u64,
)
    ensures
        register_agent_error(name, capabilities, stake_amount) is None <==> {
            &&& utf8(name).len() <= 32
            &&& capabilities.len() <= 10
            &&& stake_amount >= 10_000_000
        },
{
}

/// Exactly when a World ID verification is accepted: the agent's authority
/// verifies an agent not yet verified.
pub proof fn verification_accepted_exactly_when(authority: Pubkey, agent: Agent)
    ensures
        verify_agent_error(authority, agent) is None <==> (authority == agent.authority
            && !agent.world_id_verified),
{
}

/// Exactly when a posting is accepted: an id of at most 32 bytes, a
/// description of at most 128 bytes and a payment of at least 0.001 SOL
/// (1_000_000 lamports).
pub proof fn job_posting_accepted_exactly_when(
    job_id: Seq<char>,
    description: Seq<char>,
    payment: u64,
)
    ensures
        post_job_error(job_id, description, payment) is None <==> {
            &&& utf8(job_id).len() <= 32
            &&& utf8(description).len() <= 128
            &&& payment >= 1_000_000
        },
{
}

/// Exactly when an acceptance is accepted: the worker's agent is active and
/// the job is open with its deadline later than now.
pub proof fn job_acceptance_accepted_exactly_when(agent: Agent, job: Job, now: i64)
    ensures
        accept_job_error(agent, job, now) is None <==> (agent.active && job.status == 0
            && now < job.deadline),
{
}

/// Exactly when a submission is accepted: the job's worker submits on an
/// assigned job.
pub proof fn job_submission_accepted_exactly_when(worker: Pubkey, job: Job)
    ensures
        submit_work_error(worker, job) is None <==> (worker == job.worker && job.status == 1),
{
}

/// Exactly when an approval is accepted: the job's poster approves the
/// submitted work of the job's worker.
pub proof fn job_approval_accepted_exactly_when(poster: Pubkey, worker: Pubkey, job: Job)
    ensures
        approve_work_error(poster, worker, job) is None <==> (poster == job.poster && worker
            == job.worker && job.status == 2),
{
}

/// Exactly when a dispute of a job is accepted: its poster or worker
/// disputes it while it is assigned or submitted.
pub proof fn job_dispute_accepted_exactly_when(disputer: Pubkey, job: Job)
    ensures
        dispute_job_error(disputer, job) is None <==> ((disputer == job.poster || disputer
            == job.worker) && (job.status == 1 || job.status == 2)),
{
}

/// Exactly when a cancellation is accepted: the poster cancels an open job.
pub proof fn job_cancellation_accepted_exactly_when(poster: Pubkey, job: Job)
    ensures
        cancel_job_error(poster, job) is None <==> (poster == job.poster && job.status == 0),
{
}

/// Exactly when an expiry is accepted: the poster expires an open or
/// assigned job whose deadline is before now.
pub proof fn job_expiry_accepted_exactly_when(poster: Pubkey, job: Job, now: i64)
    ensures
        expire_job_error(poster, job, now) is None <==> (poster == job.poster && (job.status == 0
            || job.status == 1) && now > job.deadline),
{
}

/// Exactly when raising a dispute is accepted: a party of a disputed job
/// gives a reason of at most 256 bytes.
pub proof fn dispute_raise_accepted_exactly_when(caller: Pubkey, job: Job, reason: Seq<char>)
    ensures
        raise_dispute_error(caller, job, reason) is None <==> {
            &&& job.status == 4
            &&& caller == job.poster || caller == job.worker
            &&& utf8(reason).len() <= 256
        },
{
}

/// Exactly when a ruling is accepted: the job's poster rules, once, on the
/// job's own dispute with a resolution of at most 256 bytes and a ruling of
/// 1, 2 or 3, naming the job's poster wallet when the poster gets a share
/// (rulings 1 and 3) and the job's worker wallet when the worker does
/// (rulings 2 and 3). The poster then gets the whole payment under ruling
/// 1, half of it rounded down under ruling 3 and nothing under ruling 2;
/// the worker gets the rest. The job ends completed when the worker wins,
/// cancelled otherwise.
pub proof fn ruling_accepted_exactly_when(
    caller: Pubkey,
    dispute: DisputeAccount,
    job_key: Pubkey,
    job: Job,
    poster: Pubkey,
    worker: Pubkey,
    resolution: Seq<char>,
    ruling: u8,
)
    ensures
        resolve_dispute_error(caller, dispute, job_key, job, poster, worker, resolution, ruling)
            is None <==> {
            &&& !dispute.resolved
            &&& caller == job.poster
            &&& dispute.job == job_key
            &&& utf8(resolution).len() <= 256
            &&& 1 <= ruling <= 3
            &&& ruling != 2 ==> poster == job.poster
            &&& ruling != 1 ==> worker == job.worker
        },
        ruling == 1 ==> poster_award(ruling, job.payment) == job.payment && worker_award(
            ruling,
            job.payment,
        ) == 0 && status_after_ruling(ruling) == 5,
        ruling == 2 ==> poster_award(ruling, job.payment) == 0 && worker_award(
            ruling,
            job.payment,
        ) == job.payment && status_after_ruling(ruling) == 3,
        ruling == 3 ==> poster_award(ruling, job.payment) == job.payment / 2 && worker_award(
            ruling,
            job.payment,
        ) == job.payment - job.payment / 2 && status_after_ruling(ruling) == 5,
{
}

/// Exactly when a rating is accepted: a score from 1 to 5 by anyone but
/// the agent's authority, with a review of at most 128 bytes.
pub proof fn rating_accepted_exactly_when(
    rater: Pubkey,
    agent: Agent,
    score: u8,
    review: Seq<char>,
)
    ensures
        rate_agent_error(rater, agent, score, review) is None <==> {
            &&& 1 <= score <= 5
            &&& rater != agent.authority
            &&& utf8(review).len() <= 128
        },
{
}

/// Exactly when a reputation NFT mint is accepted: the agent completed at
/// least one job and has no NFT yet.
pub proof fn nft_mint_accepted_exactly_when(agent: Agent)
    ensures
        mint_reputation_nft_error(agent) is None <==> (agent.jobs_completed >= 1
            && agent.reputation_nft_mint.is_zero()),
{
}

/// New records start where their life begins: a registered agent is an
/// active, unrated Scout without jobs, verification or NFT; a posted job is
/// open, unassigned and holds the posted payment; a raised dispute is
/// unresolved and without ruling.
pub proof fn new_records_start_fresh(
    agent: Agent,
    authority: Pubkey,
    name: Seq<char>,
    capabilities: Seq<String>,
    stake_amount: u64,
    job: Job,
    poster: Pubkey,
    job_id: Seq<char>,
    description: Seq<char>,
    requirements: Seq<String>,
    payment: u64,
    deadline: i64,
    dispute: DisputeAccount,
    caller: Pubkey,
    job_key: Pubkey,
    reason: Seq<char>,
    now: i64,
    bump: u8,
)
    ensures
        is_registered_agent(agent, authority, name, capabilities, stake_amount, now, bump) ==> {
            &&& agent.authority == authority
            &&& agent.active
            &&& agent.tier == 0
            &&& agent.reputation_score == 0
            &&& agent.reputation_count == 0
            &&& agent.jobs_completed == 0
            &&& !agent.world_id_verified
            &&& agent.reputation_nft_mint.is_zero()
            &&& agent.stake == stake_amount
        },
        is_posted_job(
            job,
            poster,
            job_id,
            description,
            requirements,
            payment,
            deadline,
            now,
            bump,
        ) ==> {
            &&& job.poster == poster
            &&& job.status == 0
            &&& !job.worker_assigned
            &&& job.worker.is_zero()
            &&& job.payment == payment
            &&& job.deadline == deadline
        },
        is_raised_dispute(dispute, caller, job_key, reason, now, bump) ==> {
            &&& dispute.job == job_key
            &&& dispute.initiator == caller
            &&& !dispute.resolved
            &&& dispute.ruling == 0
        },
{
}

} // verus!
