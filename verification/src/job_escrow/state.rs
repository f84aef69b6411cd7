use vstd::prelude::*;

use crate::pubkey::Pubkey;

verus! {

/// Maximum length for job description (bytes)
pub const MAX_DESCRIPTION_LENGTH: usize = 512;

/// Maximum length for requirements (bytes)
pub const MAX_REQUIREMENTS_LENGTH: usize = 1024;

/// Maximum length for deliverable URL/hash (bytes)
pub const MAX_DELIVERABLE_LENGTH: usize = 256;

/// Job lifecycle states.
#[derive(Clone, Copy, Debug, PartialEq, Eq, Structural)]
pub enum JobStatus {
    /// Job posted, waiting for a worker to accept
    Open,
    /// A worker has accepted the job, escrow is locked
    Accepted,
    /// Worker has submitted deliverables, waiting for review
    Submitted,
    /// Poster has approved the work, funds released to worker
    Approved,
    /// Either party has disputed the job
    Disputed,
    /// Job has expired (deadline passed), eligible for refund
    Expired,
    /// Funds refunded to the poster (after expiry or dispute resolution)
    Refunded,
    /// Job completed, funds transferred to worker
    Completed,
}

impl JobStatus {
    pub open spec fn spec_can_accept(self) -> bool {
        self == JobStatus::Open
    }

    pub open spec fn spec_can_submit(self) -> bool {
        self == JobStatus::Accepted
    }

    pub open spec fn spec_can_approve(self) -> bool {
        self == JobStatus::Submitted
    }

    pub open spec fn spec_can_dispute(self) -> bool {
        self == JobStatus::Submitted || self == JobStatus::Accepted
    }

    pub open spec fn spec_can_refund(self) -> bool {
        self == JobStatus::Expired
    }

    pub open spec fn spec_can_cancel(self) -> bool {
        self == JobStatus::Open || self == JobStatus::Accepted
    }

    pub fn can_accept(&self) -> (r: bool)
        ensures
            r == self.spec_can_accept(),
    {
        *self == JobStatus::Open
    }

    pub fn can_submit(&self) -> (r: bool)
        ensures
            r == self.spec_can_submit(),
    {
        *self == JobStatus::Accepted
    }

    pub fn can_approve(&self) -> (r: bool)
        ensures
            r == self.spec_can_approve(),
    {
        *self == JobStatus::Submitted
    }

    pub fn can_dispute(&self) -> (r: bool)
        ensures
            r == self.spec_can_dispute(),
    {
        match *self {
            JobStatus::Submitted | JobStatus::Accepted => true,
            _ => false,
        }
    }

    pub fn can_refund(&self) -> (r: bool)
        ensures
            r == self.spec_can_refund(),
    {
        *self == JobStatus::Expired
    }

    pub fn can_cancel(&self) -> (r: bool)
        ensures
            r == self.spec_can_cancel(),
    {
        match *self {
            JobStatus::Open | JobStatus::Accepted => true,
            _ => false,
        }
    }
}

/// Account record of one job.
#[derive(Clone, Copy, Debug)]
pub struct JobAccount {
    /// Unique job identifier (monotonically increasing)
    pub job_id: u64,
    /// The wallet that posted and funded the job
    pub poster: Pubkey,
    /// The worker who accepted the job (zero key if unassigned)
    pub worker: Pubkey,
    /// Job description
    pub description: [u8; 512],
    pub description_len: u16,
    /// Requirements for the job
    pub requirements: [u8; 1024],
    pub requirements_len: u16,
    /// Payment amount in lamports
    pub payment_lamports: u64,
    /// Deadline (Unix timestamp) after which the poster may be refunded
    pub deadline: i64,
    /// Current status of the job
    pub status: JobStatus,
    /// Deliverable URL or IPFS hash
    pub deliverable: [u8; 256],
    pub deliverable_len: u16,
    /// Timestamp when the job was created
    pub created_at: i64,
    /// Timestamp of last status update
    pub updated_at: i64,
    /// Address bump seed
    pub bump: u8,
}

/// Global job counter for unique IDs
#[derive(Clone, Copy, Debug)]
pub struct JobCounter {
    pub count: u64,
    pub bump: u8,
}

/// Escrow vault record (holds the locked funds)
#[derive(Clone, Copy, Debug)]
pub struct EscrowVault {
    /// The job this vault belongs to
    pub job: Pubkey,
    /// Amount of lamports held
    pub amount: u64,
    /// Whether the vault has been claimed
    pub claimed: bool,
    pub bump: u8,
}

} // verus!
