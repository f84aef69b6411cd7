use vstd::prelude::*;

use crate::dispute_resolver::instructions::create_dispute::{
    create_dispute_error, is_new_dispute, normalized_dispute_count,
};
use crate::dispute_resolver::instructions::resolve_dispute::{
    resolve_dispute_error, valid_outcome, RESOLVER_AUTHORITY,
};
use crate::dispute_resolver::instructions::submit_evidence::{
    status_after_evidence, submit_evidence_error,
};
use crate::dispute_resolver::state::{DisputeAccount, DisputeStatus, ResolutionOutcome};
use crate::dispute_resolver::state::DisputeCounter;
use crate::job_escrow::state::JobAccount;
use crate::pubkey::Pubkey;

verus! {

/// A dispute's fields agree: it is resolved exactly when its status says so
/// and exactly when it carries an outcome, and that outcome is well formed.
pub open spec fn dispute_consistent(d: DisputeAccount) -> bool {
    &&& d.resolved <==> d.status == DisputeStatus::Resolved
    &&& d.resolved <==> d.outcome is Some
    &&& (d.outcome matches Some(o) ==> valid_outcome(o))
}

/// The rank of a status along the dispute's life.
pub open spec fn status_rank(s: DisputeStatus) -> int {
    match s {
        DisputeStatus::Open => 0,
        DisputeStatus::UnderReview => 1,
        DisputeStatus::Resolved => 2,
    }
}

/// A new dispute is consistent, and evidence and resolution keep it so while
/// its status only moves forward.
pub proof fn disputes_stay_consistent(
    d: DisputeAccount,
    initiator: Pubkey,
    poster: Pubkey,
    worker: Pubkey,
    job: Pubkey,
    reason: [u8; 512],
    reason_len: u16,
    submitter: Pubkey,
    content_len: u16,
    url_len: u16,
    resolver: Pubkey,
    resolution: [u8; 1024],
    resolution_len: u16,
    resolution_outcome: ResolutionOutcome,
    now: i64,
    bump: u8,
)
    ensures
        is_new_dispute(d, initiator, poster, worker, job, reason, reason_len, now, bump)
            ==> dispute_consistent(d),
        dispute_consistent(d) && submit_evidence_error(submitter, d, content_len, url_len) is None
            ==> {
            let next = DisputeAccount { status: status_after_evidence(d.status), ..d };
            &&& dispute_consistent(next)
            &&& status_rank(d.status) <= status_rank(next.status)
        },
        dispute_consistent(d) && resolve_dispute_error(
            resolver,
            d,
            resolution_len,
            resolution_outcome,
        ) is None ==> {
            let next = DisputeAccount {
                resolution,
                resolution_len,
                outcome: Some(resolution_outcome),
                status: DisputeStatus::Resolved,
                resolved: true,
                resolved_at: now,
                ..d
            };
            &&& dispute_consistent(next)
            &&& status_rank(d.status) < status_rank(next.status)
        },
{
}

/// A resolved dispute is final: no more evidence and no second resolution.
pub proof fn resolved_dispute_is_final(
    d: DisputeAccount,
    submitter: Pubkey,
    content_len: u16,
    url_len: u16,
    resolver: Pubkey,
    resolution_len: u16,
    resolution_outcome: ResolutionOutcome,
)
    requires
        d.resolved || d.status == DisputeStatus::Resolved,
    ensures
        submit_evidence_error(submitter, d, content_len, url_len) is Some,
        resolve_dispute_error(resolver, d, resolution_len, resolution_outcome) is Some,
{
}

/// A dispute is opened only between the parties recorded for its job, by
/// one of them.
pub proof fn disputes_are_between_job_parties(
    initiator: Pubkey,
    poster: Pubkey,
    worker: Pubkey,
    counter: DisputeCounter,
    job: Pubkey,
    job_record_key: Pubkey,
    job_record: JobAccount,
    reason_len: u16,
)
    requires
        create_dispute_error(
            initiator,
            poster,
            worker,
            counter,
            job,
            job_record_key,
            job_record,
            reason_len,
        ) is None,
    ensures
        job_record_key == job,
        poster == job_record.poster,
        worker == job_record.worker,
        initiator == job_record.poster || initiator == job_record.worker,
{
}

/// The resolver authority resolves every unresolved dispute that is open or
/// under review, with a resolution of at most 1024 bytes and an outcome
/// whose split gives the poster at most 10000 basis points; in particular
/// evidence never stops a dispute from being resolved.
pub proof fn pending_disputes_are_resolvable(
    d: DisputeAccount,
    resolution_len: u16,
    resolution_outcome: ResolutionOutcome,
)
    requires
        d.status == DisputeStatus::Open || d.status == DisputeStatus::UnderReview,
        !d.resolved,
        resolution_len <= 1024,
        resolution_outcome matches ResolutionOutcome::Split { poster_share_bps }
            ==> poster_share_bps <= 10000,
    ensures
        resolve_dispute_error(
            Pubkey { bytes: RESOLVER_AUTHORITY },
            d,
            resolution_len,
            resolution_outcome,
        ) is None,
{
}

/// Either party of a job opens a dispute on it: when the record is the
/// job's, the named poster and worker are the recorded ones, the reason
/// fits in 512 bytes and the counter has room, the poster and the worker
/// are both accepted as initiators.
pub proof fn either_party_opens_dispute(
    initiator: Pubkey,
    counter: DisputeCounter,
    job: Pubkey,
    job_record: JobAccount,
    reason_len: u16,
)
    requires
        initiator == job_record.poster || initiator == job_record.worker,
        reason_len <= 512,
        counter.count < u64::MAX,
    ensures
        create_dispute_error(
            initiator,
            job_record.poster,
            job_record.worker,
            counter,
            job,
            job,
            job_record,
            reason_len,
        ) is None,
{
}

/// Exactly when a dispute is opened: the record is the disputed job's, the
/// named poster and worker are the ones it records, the reason fits in 512
/// bytes, the initiator is the poster or the worker, and the counter has
/// room for one more dispute. The counter then moves to the next number
/// (2 for a fresh counter, which starts at 1), and the new dispute is open,
/// unresolved and without outcome.
pub proof fn dispute_opening_accepted_exactly_when(
    initiator: Pubkey,
    poster: Pubkey,
    worker: Pubkey,
    counter: DisputeCounter,
    job: Pubkey,
    job_record_key: Pubkey,
    job_record: JobAccount,
    reason: [u8; 512],
    reason_len: u16,
    d: DisputeAccount,
    now: i64,
    bump: u8,
)
    ensures
        create_dispute_error(
            initiator,
            poster,
            worker,
            counter,
            job,
            job_record_key,
            job_record,
            reason_len,
        ) is None <==> {
            &&& job_record_key == job
            &&& poster == job_record.poster
            &&& worker == job_record.worker
            &&& reason_len <= 512
            &&& initiator == poster || initiator == worker
            &&& counter.count < u64::MAX
        },
        normalized_dispute_count(counter) + 1 == (if counter.count == 0 {
            2
        } else {
            counter.count + 1
        }),
        is_new_dispute(d, initiator, poster, worker, job, reason, reason_len, now, bump) ==> {
            &&& d.status == DisputeStatus::Open
            &&& !d.resolved
            &&& d.outcome is None
            &&& d.initiator == initiator
            &&& d.poster == poster
            &&& d.worker == worker
            &&& d.job == job
        },
{
}

/// Exactly when evidence is accepted: the dispute is open or under review
/// and unresolved, the content and the URL fit in 256 bytes each, and the
/// submitter is the dispute's poster or worker. Evidence puts an open
/// dispute under review and leaves any other status as it was.
pub proof fn evidence_accepted_exactly_when(
    submitter: Pubkey,
    d: DisputeAccount,
    content_len: u16,
    url_len: u16,
)
    ensures
        submit_evidence_error(submitter, d, content_len, url_len) is None <==> {
            &&& d.status == DisputeStatus::Open || d.status == DisputeStatus::UnderReview
            &&& !d.resolved
            &&& content_len <= 256
            &&& url_len <= 256
            &&& submitter == d.poster || submitter == d.worker
        },
        d.status == DisputeStatus::Open ==> status_after_evidence(d.status)
            == DisputeStatus::UnderReview,
        d.status != DisputeStatus::Open ==> status_after_evidence(d.status) == d.status,
{
}

/// Exactly when a resolution is accepted: the resolver authority resolves
/// an unresolved dispute that is open or under review, with a resolution of
/// at most 1024 bytes and an outcome whose split gives the poster at most
/// 10000 basis points.
pub proof fn resolution_accepted_exactly_when(
    resolver: Pubkey,
    d: DisputeAccount,
    resolution_len: u16,
    resolution_outcome: ResolutionOutcome,
)
    ensures
        resolve_dispute_error(resolver, d, resolution_len, resolution_outcome) is None <==> {
            &&& resolver == (Pubkey { bytes: RESOLVER_AUTHORITY })
            &&& d.status == DisputeStatus::Open || d.status == DisputeStatus::UnderReview
            &&& !d.resolved
            &&& resolution_len <= 1024
            &&& resolution_outcome matches ResolutionOutcome::Split { poster_share_bps }
                ==> poster_share_bps <= 10000
        },
{
}

} // verus!
