use vstd::prelude::*;

verus! {

/// Why an instruction refused to run.
#[derive(Clone, Copy, Debug, PartialEq, Eq, Structural)]
pub enum ErrorCode {
    /// The deposited amount is less than the required minimum down payment, or the funds
    /// held for release do not cover the amount to release.
    InsufficientAmount,
    /// An unsupported token mint was provided.
    InvalidToken,
    /// The escrow has already been released or refunded.
    AlreadyReleased,
    /// The order is in an invalid state for the requested operation.
    InvalidOrderState,
    /// The milestones' basis points do not sum to 10000, or there are not five of them.
    InvalidMilestones,
    /// The signer is not the authorized oracle, nor the party (buyer or seller) that the
    /// instruction admits.
    UnauthorizedOracle,
    /// The milestone is already completed.
    MilestoneAlreadyCompleted,
    /// The signer is not the authorized arbitrator.
    UnauthorizedArbitrator,
    /// The milestone has already been funded.
    MilestoneAlreadyFunded,
    /// The funding amount does not match the milestone target.
    IncorrectFundingAmount,
    /// A numerical overflow occurred.
    NumericalOverflow,
    /// The escrow is in an invalid state for the requested operation.
    InvalidEscrowState,
    /// A token account that receives funds or the vehicle token does not belong to the
    /// party it is meant for.
    InvalidTokenAccount,
}

} // verus!
