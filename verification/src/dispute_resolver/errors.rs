use vstd::prelude::*;

verus! {

/// Errors of the dispute resolver program.
#[derive(Clone, Copy, Debug, PartialEq, Eq, Structural)]
pub enum DisputeResolverError {
    ReasonTooLong,
    ResolutionTooLong,
    EvidenceContentTooLong,
    EvidenceUrlTooLong,
    TooMuchEvidence,
    InvalidDisputeStatus,
    NotParticipant,
    NotResolver,
    AlreadyResolved,
    NotResolved,
    InvalidOutcome,
    InvalidSplitPercentage,
    CounterOverflow,
    JobNotFound,
}

} // verus!
