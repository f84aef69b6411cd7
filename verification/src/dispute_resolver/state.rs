use vstd::prelude::*;

use crate::pubkey::Pubkey;

verus! {

/// Maximum lengths
pub const MAX_REASON_LENGTH: usize = 512;

pub const MAX_RESOLUTION_LENGTH: usize = 1024;

pub const MAX_EVIDENCE_LENGTH: usize = 256;

pub const MAX_EVIDENCE_URL_LENGTH: usize = 256;

pub const MAX_EVIDENCE_COUNT: usize = 10;

/// Dispute status
#[derive(Clone, Copy, Debug, PartialEq, Eq, Structural)]
pub enum DisputeStatus {
    /// Dispute has been created, evidence gathering phase
    Open,
    /// Evidence submitted by both parties, awaiting resolution
    UnderReview,
    /// Dispute resolved by the resolver/DAO
    Resolved,
}

/// Resolution outcome
#[derive(Clone, Copy, Debug, PartialEq, Eq, Structural)]
pub enum ResolutionOutcome {
    /// Poster wins, funds returned to poster
    PosterWins,
    /// Worker wins, funds released to worker
    WorkerWins,
    /// Split decision, funds divided between poster and worker
    Split {
        /// Basis points (0-10000)
        poster_share_bps: u16,
    },
    /// No resolution, dispute dismissed
    Dismissed,
}

/// Record of a dispute
#[derive(Clone, Copy, Debug)]
pub struct DisputeAccount {
    /// The job this dispute is about
    pub job: Pubkey,
    /// Who initiated the dispute
    pub initiator: Pubkey,
    /// The poster of the original job
    pub poster: Pubkey,
    /// The worker of the original job
    pub worker: Pubkey,
    /// Reason for the dispute
    pub reason: [u8; 512],
    pub reason_len: u16,
    /// Resolution description (set when resolved)
    pub resolution: [u8; 1024],
    pub resolution_len: u16,
    /// Outcome of the resolution
    pub outcome: Option<ResolutionOutcome>,
    /// Current status
    pub status: DisputeStatus,
    /// Whether the dispute has been resolved
    pub resolved: bool,
    /// Timestamp when the dispute was created
    pub created_at: i64,
    /// Timestamp when the dispute was resolved
    pub resolved_at: i64,
    /// Address bump
    pub bump: u8,
}

/// Global dispute counter
#[derive(Clone, Copy, Debug)]
pub struct DisputeCounter {
    pub count: u64,
    pub bump: u8,
}

/// Individual evidence submission
#[derive(Clone, Copy, Debug)]
pub struct EvidenceAccount {
    /// The dispute this evidence belongs to
    pub dispute: Pubkey,
    /// Who submitted the evidence
    pub submitter: Pubkey,
    /// Evidence description or hash
    pub content: [u8; 256],
    pub content_len: u16,
    /// URL to supporting document/IPFS hash
    pub url: [u8; 256],
    pub url_len: u16,
    /// Timestamp
    pub created_at: i64,
    /// Address bump
    pub bump: u8,
}

} // verus!
