//! Failure taxonomy of the engine, with stable numeric codes.
//!
//! Every operation fails immediately and fatally with one of these kinds;
//! the numeric code is the external error surface and must stay stable.

use vstd::prelude::*;

verus! {

/// Enumerated failure kinds. `code` gives the stable numeric code of each.
#[derive(Clone, Copy, Debug, PartialEq, Eq, Structural)]
pub enum LockrionError {
    InvalidInstruction,
    ReserveAlreadyFunded,
    ReserveNotFunded,
    InvalidFundingAmount,
    FundingWindowClosed,
    DepositWindowNotStarted,
    DepositWindowClosed,
    DepositWindowNotClosed,
    InvalidAmount,
    ClaimWindowNotStarted,
    ClaimWindowClosed,
    AlreadyClaimed,
    SweepAlreadyExecuted,
    ReclaimAlreadyExecuted,
    NoParticipation,
    UnauthorizedCaller,
    InvalidPda,
    InvalidTokenProgram,
    InvalidMint,
    InvalidAuthority,
    InvalidEscrowAccount,
    InvalidPlatformTreasury,
    InvalidUserStateAccount,
    ArithmeticOverflow,
    ArithmeticUnderflow,
    DivisionByZero,
    InvariantViolation,
    InvalidStateVersion,
    InvalidAccountSize,
}

impl LockrionError {
    /// The stable numeric code of this failure kind.
    pub open spec fn spec_code(self) -> u32 {
        match self {
            LockrionError::InvalidInstruction => 0,
            LockrionError::ReserveAlreadyFunded => 10,
            LockrionError::ReserveNotFunded => 11,
            LockrionError::InvalidFundingAmount => 12,
            LockrionError::FundingWindowClosed => 13,
            LockrionError::DepositWindowNotStarted => 20,
            LockrionError::DepositWindowClosed => 21,
            LockrionError::DepositWindowNotClosed => 22,
            LockrionError::InvalidAmount => 23,
            LockrionError::ClaimWindowNotStarted => 30,
            LockrionError::ClaimWindowClosed => 31,
            LockrionError::AlreadyClaimed => 32,
            LockrionError::SweepAlreadyExecuted => 40,
            LockrionError::ReclaimAlreadyExecuted => 41,
            LockrionError::NoParticipation => 42,
            LockrionError::UnauthorizedCaller => 50,
            LockrionError::InvalidPda => 51,
            LockrionError::InvalidTokenProgram => 52,
            LockrionError::InvalidMint => 53,
            LockrionError::InvalidAuthority => 54,
            LockrionError::InvalidEscrowAccount => 55,
            LockrionError::InvalidPlatformTreasury => 56,
            LockrionError::InvalidUserStateAccount => 57,
            LockrionError::ArithmeticOverflow => 60,
            LockrionError::ArithmeticUnderflow => 61,
            LockrionError::DivisionByZero => 62,
            LockrionError::InvariantViolation => 63,
            LockrionError::InvalidStateVersion => 70,
            LockrionError::InvalidAccountSize => 71,
        }
    }

    /// The stable numeric code surfaced to the host on failure.
    #[verifier::when_used_as_spec(spec_code)]
    pub fn code(self) -> (r: u32)
        ensures
            r == self.spec_code(),
    {
        match self {
            LockrionError::InvalidInstruction => 0,
            LockrionError::ReserveAlreadyFunded => 10,
            LockrionError::ReserveNotFunded => 11,
            LockrionError::InvalidFundingAmount => 12,
            LockrionError::FundingWindowClosed => 13,
            LockrionError::DepositWindowNotStarted => 20,
            LockrionError::DepositWindowClosed => 21,
            LockrionError::DepositWindowNotClosed => 22,
            LockrionError::InvalidAmount => 23,
            LockrionError::ClaimWindowNotStarted => 30,
            LockrionError::ClaimWindowClosed => 31,
            LockrionError::AlreadyClaimed => 32,
            LockrionError::SweepAlreadyExecuted => 40,
            LockrionError::ReclaimAlreadyExecuted => 41,
            LockrionError::NoParticipation => 42,
            LockrionError::UnauthorizedCaller => 50,
            LockrionError::InvalidPda => 51,
            LockrionError::InvalidTokenProgram => 52,
            LockrionError::InvalidMint => 53,
            LockrionError::InvalidAuthority => 54,
            LockrionError::InvalidEscrowAccount => 55,
            LockrionError::InvalidPlatformTreasury => 56,
            LockrionError::InvalidUserStateAccount => 57,
            LockrionError::ArithmeticOverflow => 60,
            LockrionError::ArithmeticUnderflow => 61,
            LockrionError::DivisionByZero => 62,
            LockrionError::InvariantViolation => 63,
            LockrionError::InvalidStateVersion => 70,
            LockrionError::InvalidAccountSize => 71,
        }
    }
}

} // verus!
