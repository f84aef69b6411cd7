use vstd::prelude::*;

verus! {

/// Errors of the reputation program.
#[derive(Clone, Copy, Debug, PartialEq, Eq, Structural)]
pub enum ReputationError {
    InvalidRatingScore,
    SelfRating,
    AlreadyRated,
    NotJobParticipant,
    ReviewTooLong,
    AgentNotFound,
    AlreadyMinted,
    MetaplexError,
    InvalidTier,
}

} // verus!
