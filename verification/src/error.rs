use vstd::prelude::*;

verus! {

/// Every failure the engine can report. Each operation returns the first
/// error whose condition holds, and leaves the store untouched when it does.
#[derive(Debug, Clone, PartialEq, Eq)]
pub enum ContractError {
    Unauthorized { msg: String },
    InsufficientFunds { required: String, available: String },
    InvalidAmount { msg: String },
    MemberNotFound { address: String },
    MemberAlreadyExists { address: String },
    TontineNotStarted,
    TontineAlreadyStarted,
    TontineAlreadyFinished,
    RoundNotActive,
    RoundDeadlineNotReached,
    RoundDeadlineExceeded,
    NoActiveRound,
    InvalidBeneficiaryIndex { index: u64 },
    InvalidRound { round: u64 },
    InvalidTokenDenom { denom: String },
    InvalidContributionAmount,
    InvalidLatePenaltyAmount,
    InvalidProtocolFeesAmount,
    InvalidTimeGuards,
    InvalidRoundFrequency,
    InvalidBeneficiariesList,
    MemberAlreadyContributed,
    MemberHasPenalties,
    MemberIsLate,
    CannotReplaceDuringActiveRound,
    CannotAdvancePayment { msg: String },
    CannotCloseEarly { msg: String },
    InvalidMigration { msg: String },
    InvalidEscrowState,
    DisputeResolutionFailed { msg: String },
    InvalidRoundState { state: String },
    InvalidMemberState { state: String },
    InvalidDeposit { msg: String },
    InvalidWithdrawal { msg: String },
    InvalidDistribution { msg: String },
    InvalidPenaltyApplication { msg: String },
    InvalidFeeCollection { msg: String },
    InvalidMemberReplacement { msg: String },
    InvalidEarlyClosure { msg: String },
    InvalidFinalization { msg: String },
    InvalidCw20Receive { msg: String },
    InvalidNativeFunds { msg: String },
    InvalidEvent { msg: String },
    InvalidStateUpdate { msg: String },
    InvalidConfiguration { msg: String },
    InvalidMemberManagement { msg: String },
    InvalidRoundManagement { msg: String },
    InvalidPenaltyManagement { msg: String },
    InvalidFeeManagement { msg: String },
    InvalidArbitration { msg: String },
    InvalidTimeManagement { msg: String },
    InvalidEscrowManagement { msg: String },
    InvalidDisputeResolution { msg: String },
}

} // verus!
