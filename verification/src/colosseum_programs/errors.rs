use vstd::prelude::*;

verus! {

/// Error codes of the combined program.
#[derive(Clone, Copy, Debug, PartialEq, Eq, Structural)]
pub enum ColosseumError {
    NameTooLong,
    TooManyCapabilities,
    StakeTooLow,
    PaymentTooLow,
    JobNotOpen,
    NotAssignedWorker,
    NotJobPoster,
    DeadlinePassed,
    InvalidScore,
    SelfRating,
    AgentNotActive,
    DeadlineNotPassed,
    NotDisputeParty,
    DisputeAlreadyResolved,
    InvalidDisputeRuling,
    AgentNotEligibleForNft,
    NftAlreadyMinted,
    Unauthorized,
    AlreadyVerified,
}

} // verus!
