use vstd::prelude::*;

verus! {

/// Everything needed to create a tontine. Amounts arrive as decimal strings
/// and are parsed and checked before a configuration is accepted; times and
/// durations are in seconds.
#[derive(Debug, Clone)]
pub struct InstantiateMsg {
    pub admin: String,
    pub token_denom: String,
    pub contribution_amount: String,
    pub round_frequency: u64,
    pub beneficiaries: Vec<String>,
    pub late_penalty: String,
    pub protocol_fees: String,
    pub arbitrator: String,
    pub time_guards: u64,
}

/// The mutating commands the engine understands.
#[derive(Debug, Clone)]
pub enum ExecuteMsg {
    RegisterMember { address: String },
    RemoveMember { address: String },
    ReplaceMember { old_address: String, new_address: String },
    StartTontine,
    PauseTontine,
    ResumeTontine,
    CloseEarly { reason: String },
    DepositContribution,
    DistributeToBeneficiary,
    AdvancePayment { beneficiary: String, discount: String },
    DeclareLate { member: String },
    ApplyPenalty { member: String, amount: String },
    PayPenalty { member: String },
    WithdrawFees,
    CollectProtocolFees,
    ResolveDispute { member: String, resolution: String },
    ArbitrateDispute { member: String, decision: String },
    FinalizeTontine,
    Migrate { new_code_id: u64 },
}

/// The read-only requests the read model answers.
#[derive(Debug, Clone)]
pub enum QueryMsg {
    GetConfig,
    GetAdmin,
    GetArbitrator,
    GetMembers,
    GetMember { address: String },
    GetMemberStatus { address: String },
    GetMemberBalance { address: String },
    GetMemberPenalties { address: String },
    GetCurrentRound,
    GetRoundInfo { round: u64 },
    GetRoundDeposits { round: u64 },
    GetRoundState { round: u64 },
    GetTontineBalance,
    GetRoundBalance { round: u64 },
    GetAccumulatedFees,
    GetPendingPenalties,
    GetCurrentBeneficiary,
    GetNextBeneficiary,
    GetBeneficiariesList,
    GetBeneficiarySchedule,
    GetRoundDeadline { round: u64 },
    GetTimeGuards,
    GetRoundFrequency,
    GetDistributionHistory,
    GetPenaltyHistory,
    GetDepositHistory,
    GetTontineState,
    GetEscrowState,
    GetDisputeState,
    GetMemberCount,
    GetTotalContributions,
    GetTotalDistributions,
    GetTotalPenalties,
    GetTotalFees,
    GetStatistics,
}

/// Where a member stands in the group's lifecycle.
#[derive(Debug, Clone, Copy, PartialEq, Eq, Structural)]
pub enum MemberStatus {
    Active,
    Inactive,
    Suspended,
    Replaced,
    Excluded,
}

/// Where a round stands in its lifecycle.
#[derive(Debug, Clone, Copy, PartialEq, Eq, Structural)]
pub enum RoundState {
    Pending,
    Active,
    Completed,
    Distributed,
    Failed,
}

/// Where a dispute stands in its lifecycle.
#[derive(Debug, Clone, Copy, PartialEq, Eq, Structural)]
pub enum DisputeStatus {
    Open,
    UnderReview,
    Resolved,
    Closed,
}

/// The configuration together with the lifecycle flags, amounts rendered
/// as decimal strings.
#[derive(Debug, Clone)]
pub struct ConfigResponse {
    pub admin: String,
    pub token_denom: String,
    pub contribution_amount: String,
    pub round_frequency: u64,
    pub beneficiaries: Vec<String>,
    pub late_penalty: String,
    pub protocol_fees: String,
    pub arbitrator: String,
    pub time_guards: u64,
    pub is_active: bool,
    pub is_paused: bool,
    pub is_finished: bool,
}

#[derive(Debug, Clone)]
pub struct MemberResponse {
    pub address: String,
    pub status: MemberStatus,
    pub balance: String,
    pub penalties: String,
    pub last_contribution: Option<u64>,
    pub is_late: bool,
}

#[derive(Debug, Clone)]
pub struct RoundResponse {
    pub round_number: u64,
    pub state: RoundState,
    pub balance: String,
    pub beneficiary: String,
    pub deadline: u64,
    pub deposits: Vec<DepositResponse>,
    pub is_distributed: bool,
}

#[derive(Debug, Clone)]
pub struct DepositResponse {
    pub member: String,
    pub amount: String,
    pub timestamp: u64,
    pub is_late: bool,
}

#[derive(Debug, Clone)]
pub struct TontineStateResponse {
    pub current_round: u64,
    pub total_rounds: u64,
    pub total_balance: String,
    pub total_fees: String,
    pub total_penalties: String,
    pub member_count: u64,
    pub is_active: bool,
    pub is_paused: bool,
    pub is_finished: bool,
}

#[derive(Debug, Clone)]
pub struct DistributionHistoryResponse {
    pub distributions: Vec<DistributionResponse>,
}

#[derive(Debug, Clone)]
pub struct DistributionResponse {
    pub round: u64,
    pub beneficiary: String,
    pub amount: String,
    pub timestamp: u64,
}

#[derive(Debug, Clone)]
pub struct PenaltyHistoryResponse {
    pub penalties: Vec<PenaltyResponse>,
}

#[derive(Debug, Clone)]
pub struct PenaltyResponse {
    pub member: String,
    pub amount: String,
    pub reason: String,
    pub timestamp: u64,
    pub is_paid: bool,
}

#[derive(Debug, Clone)]
pub struct DepositHistoryResponse {
    pub deposits: Vec<DepositResponse>,
}

#[derive(Debug, Clone)]
pub struct EscrowStateResponse {
    pub is_locked: bool,
    pub locked_amount: String,
    pub lock_reason: String,
    pub lock_timestamp: Option<u64>,
}

#[derive(Debug, Clone)]
pub struct DisputeStateResponse {
    pub active_disputes: Vec<DisputeResponse>,
}

#[derive(Debug, Clone)]
pub struct DisputeResponse {
    pub member: String,
    pub reason: String,
    pub timestamp: u64,
    pub status: DisputeStatus,
    pub resolution: Option<String>,
}

#[derive(Debug, Clone)]
pub struct StatisticsResponse {
    pub member_count: u64,
    pub total_contributions: String,
    pub total_distributions: String,
    pub total_penalties: String,
    pub total_fees: String,
    pub active_rounds: u64,
    pub completed_rounds: u64,
}

} // verus!
