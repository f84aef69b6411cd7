use vstd::prelude::*;

verus! {

/// Errors of the job escrow program.
#[derive(Clone, Copy, Debug, PartialEq, Eq, Structural)]
pub enum JobEscrowError {
    DescriptionTooLong,
    RequirementsTooLong,
    DeliverableTooLong,
    ZeroPayment,
    InvalidDeadline,
    InvalidJobStatus,
    NotPoster,
    NotWorker,
    JobExpired,
    AlreadyClaimed,
    VaultNotFound,
    InsufficientFunds,
    DeadlineNotPassed,
    NotOpenForCancellation,
    SelfAssignment,
    Unauthorized,
    CounterOverflow,
    /// The accepting worker's agent is deactivated.
    AgentNotActive,
}

} // verus!
