use tontine_contract::contract::Contract;
use tontine_contract::error::ContractError;
use tontine_contract::execute::ExecuteHandler;
use tontine_contract::msg::{InstantiateMsg, MemberStatus, RoundState};
use tontine_contract::query::QueryHandler;
use tontine_contract::state::{validate_amount, validate_member_address, EntityStore};

const B1: &str = "addr_safro1beneficiary";
const B2: &str = "addr_safro2beneficiary";
const M1: &str = "addr_safromember00001";

fn msg_with(beneficiaries: Vec<String>) -> InstantiateMsg {
    InstantiateMsg {
        admin: "admin".to_string(),
        token_denom: "usaf".to_string(),
        contribution_amount: "1000".to_string(),
        round_frequency: 86400,
        beneficiaries,
        late_penalty: "50".to_string(),
        protocol_fees: "10".to_string(),
        arbitrator: "arbitrator".to_string(),
        time_guards: 3600,
    }
}

fn setup() -> EntityStore {
    Contract::new()
        .instantiate(msg_with(vec![B1.to_string(), B2.to_string()]))
        .unwrap()
}

fn admin() -> String {
    "admin".to_string()
}

/// The full scenario: create, register both beneficiaries, start, have the
/// first deposit before the deadline, advance past the deadline and
/// distribute.
#[test]
fn full_round_scenario() {
    let mut t = setup();
    let now = 1000u64;

    ExecuteHandler::register_member(&mut t, now, &admin(), B1.to_string()).unwrap();
    ExecuteHandler::register_member(&mut t, now, &admin(), B2.to_string()).unwrap();
    ExecuteHandler::start_tontine(&mut t, now, &admin()).unwrap();

    let state = QueryHandler::get_tontine_state(&t);
    assert_eq!(state.current_round, 1);
    assert_eq!(state.total_rounds, 2);
    let round = QueryHandler::get_current_round(&t).unwrap();
    assert_eq!(round.beneficiary, B1);
    assert_eq!(round.deadline, now + 86400);
    assert_eq!(round.balance, 0);
    assert_eq!(round.state, RoundState::Active);

    let receipt = ExecuteHandler::deposit_contribution(&mut t, now + 10, &B1.to_string()).unwrap();
    assert_eq!(receipt.amount, 1000);
    assert!(!receipt.is_late);
    assert_eq!(QueryHandler::get_round_balance(&t, 1).unwrap(), "1000");

    let after_deadline = now + 86400 + 1;
    let outcome = ExecuteHandler::distribute_to_beneficiary(&mut t, after_deadline, &admin()).unwrap();
    assert_eq!(outcome.amount, 990);
    assert_eq!(outcome.fees, 10);
    assert_eq!(outcome.beneficiary, B1);
    assert_eq!(outcome.denom, "usaf");
    assert_eq!(QueryHandler::get_accumulated_fees(&t), "10");

    let history = QueryHandler::get_distribution_history(&t);
    assert_eq!(history.distributions.len(), 1);
    assert_eq!(history.distributions[0].round, 1);
    assert_eq!(history.distributions[0].amount, "990");
    assert_eq!(history.distributions[0].beneficiary, B1);
}

/// A second deposit by the same member in the same round is rejected and
/// leaves the balance unchanged.
#[test]
fn double_deposit_rejected() {
    let mut t = setup();
    ExecuteHandler::register_member(&mut t, 0, &admin(), B1.to_string()).unwrap();
    ExecuteHandler::start_tontine(&mut t, 1000, &admin()).unwrap();

    ExecuteHandler::deposit_contribution(&mut t, 2000, &B1.to_string()).unwrap();
    let second = ExecuteHandler::deposit_contribution(&mut t, 2001, &B1.to_string());
    assert_eq!(second, Err(ContractError::MemberAlreadyContributed));
    assert_eq!(QueryHandler::get_round_balance(&t, 1).unwrap(), "1000");
    let round = QueryHandler::get_current_round(&t).unwrap();
    assert_eq!(round.deposits.len(), 1);
}

/// A distribution before the deadline is rejected; a second distribution
/// is rejected with no duplicate record and no second fee accrual.
#[test]
fn distribution_timing_and_idempotence() {
    let mut t = setup();
    ExecuteHandler::register_member(&mut t, 0, &admin(), B1.to_string()).unwrap();
    ExecuteHandler::start_tontine(&mut t, 1000, &admin()).unwrap();
    ExecuteHandler::deposit_contribution(&mut t, 2000, &B1.to_string()).unwrap();

    let early = ExecuteHandler::distribute_to_beneficiary(&mut t, 1000 + 86400, &admin());
    assert_eq!(early, Err(ContractError::RoundDeadlineNotReached));

    ExecuteHandler::distribute_to_beneficiary(&mut t, 1000 + 86400 + 1, &admin()).unwrap();
    assert_eq!(QueryHandler::get_accumulated_fees(&t), "10");

    let again = ExecuteHandler::distribute_to_beneficiary(&mut t, 1000 + 86400 + 2, &admin());
    assert_eq!(again, Err(ContractError::RoundNotActive));
    assert_eq!(QueryHandler::get_distribution_history(&t).distributions.len(), 1);
    assert_eq!(QueryHandler::get_accumulated_fees(&t), "10");
}

/// The arbitrator may distribute too.
#[test]
fn arbitrator_can_distribute() {
    let mut t = setup();
    ExecuteHandler::register_member(&mut t, 0, &admin(), B1.to_string()).unwrap();
    ExecuteHandler::start_tontine(&mut t, 1000, &admin()).unwrap();
    ExecuteHandler::deposit_contribution(&mut t, 2000, &B1.to_string()).unwrap();

    let outcome =
        ExecuteHandler::distribute_to_beneficiary(&mut t, 1000 + 86400 + 1, &"arbitrator".to_string());
    assert!(outcome.is_ok());
}

/// A deposit after the deadline is accepted but recorded as late, on the
/// deposit and on the member.
#[test]
fn late_deposit_recorded() {
    let mut t = setup();
    ExecuteHandler::register_member(&mut t, 0, &admin(), B1.to_string()).unwrap();
    ExecuteHandler::start_tontine(&mut t, 1000, &admin()).unwrap();

    let receipt =
        ExecuteHandler::deposit_contribution(&mut t, 1000 + 86400 + 5, &B1.to_string()).unwrap();
    assert!(receipt.is_late);
    let round = QueryHandler::get_current_round(&t).unwrap();
    assert!(round.deposits[0].is_late);
    let member = QueryHandler::get_member(&t, &B1.to_string()).unwrap();
    assert!(member.is_late);
    assert_eq!(member.last_contribution, Some(1000 + 86400 + 5));
}

/// Unauthorized callers change nothing: registration, start, pause and
/// distribution all fail with an authorization error and every entity is
/// left as it was.
#[test]
fn unauthorized_calls_leave_state_unchanged() {
    let mut t = setup();
    let outsider = "addr_safrooutsider001".to_string();

    assert!(matches!(
        ExecuteHandler::register_member(&mut t, 0, &outsider, M1.to_string()),
        Err(ContractError::Unauthorized { .. })
    ));
    assert!(matches!(
        ExecuteHandler::start_tontine(&mut t, 1000, &outsider),
        Err(ContractError::Unauthorized { .. })
    ));
    assert!(matches!(
        ExecuteHandler::pause_tontine(&mut t, &outsider),
        Err(ContractError::Unauthorized { .. })
    ));
    assert!(matches!(
        ExecuteHandler::distribute_to_beneficiary(&mut t, 99999999, &outsider),
        Err(ContractError::Unauthorized { .. })
    ));

    assert_eq!(QueryHandler::get_member_count(&t), 0);
    let state = QueryHandler::get_tontine_state(&t);
    assert!(!state.is_active && !state.is_paused && !state.is_finished);
    assert_eq!(state.current_round, 0);
    assert_eq!(QueryHandler::get_accumulated_fees(&t), "0");
}

/// A member owing penalties can be neither removed nor replaced, whatever
/// the penalty amount.
#[test]
fn penalized_member_cannot_leave() {
    let mut t = setup();
    ExecuteHandler::register_member(&mut t, 0, &admin(), M1.to_string()).unwrap();
    t.members[0].penalties = 7;

    let removed = ExecuteHandler::remove_member(&mut t, &admin(), M1.to_string());
    assert_eq!(removed, Err(ContractError::MemberHasPenalties));
    let replaced = ExecuteHandler::replace_member(
        &mut t,
        0,
        &admin(),
        M1.to_string(),
        "addr_safromember00002".to_string(),
    );
    assert_eq!(replaced, Err(ContractError::MemberHasPenalties));
    assert_eq!(QueryHandler::get_member_count(&t), 1);
}

/// Replacement keeps the old record as replaced and carries the balance
/// and contribution history to the new member with penalties reset.
#[test]
fn replacement_inherits_history() {
    let mut t = setup();
    ExecuteHandler::register_member(&mut t, 0, &admin(), M1.to_string()).unwrap();
    t.members[0].balance = 500;
    t.members[0].last_contribution = Some(42);

    let new_addr = "addr_safromember00002".to_string();
    ExecuteHandler::replace_member(&mut t, 9, &admin(), M1.to_string(), new_addr.clone()).unwrap();

    assert_eq!(QueryHandler::get_member_count(&t), 2);
    let old = QueryHandler::get_member_status(&t, &M1.to_string()).unwrap();
    assert_eq!(old, MemberStatus::Replaced);
    assert_eq!(t.members[1].address, new_addr);
    assert_eq!(t.members[1].balance, 500);
    assert_eq!(t.members[1].penalties, 0);
    assert_eq!(t.members[1].last_contribution, Some(42));
    assert_eq!(t.members[1].registration_time, 9);

    let late = ExecuteHandler::deposit_contribution(&mut t, 10, &M1.to_string());
    assert!(matches!(late, Err(ContractError::TontineNotStarted)));
}

/// A replaced member can no longer deposit.
#[test]
fn replaced_member_cannot_deposit() {
    let mut t = setup();
    ExecuteHandler::register_member(&mut t, 0, &admin(), B1.to_string()).unwrap();
    ExecuteHandler::register_member(&mut t, 0, &admin(), M1.to_string()).unwrap();
    ExecuteHandler::replace_member(
        &mut t,
        0,
        &admin(),
        M1.to_string(),
        "addr_safromember00002".to_string(),
    )
    .unwrap();
    ExecuteHandler::start_tontine(&mut t, 1000, &admin()).unwrap();

    let result = ExecuteHandler::deposit_contribution(&mut t, 1001, &M1.to_string());
    assert!(matches!(result, Err(ContractError::InvalidMemberState { .. })));
}

/// Start demands that the first configured beneficiary is registered.
#[test]
fn start_requires_first_beneficiary() {
    let mut t = setup();
    ExecuteHandler::register_member(&mut t, 0, &admin(), B2.to_string()).unwrap();

    let result = ExecuteHandler::start_tontine(&mut t, 1000, &admin());
    assert!(matches!(
        result,
        Err(ContractError::InvalidMemberManagement { .. })
    ));
    assert!(!QueryHandler::get_tontine_state(&t).is_active);

    ExecuteHandler::register_member(&mut t, 0, &admin(), B1.to_string()).unwrap();
    assert!(ExecuteHandler::start_tontine(&mut t, 1000, &admin()).is_ok());
    assert_eq!(QueryHandler::get_tontine_state(&t).total_rounds, 2);
}

/// Starting twice, pausing twice and resuming when not paused are all
/// rejected.
#[test]
fn lifecycle_transitions_guarded() {
    let mut t = setup();
    ExecuteHandler::register_member(&mut t, 0, &admin(), B1.to_string()).unwrap();
    ExecuteHandler::start_tontine(&mut t, 1000, &admin()).unwrap();

    assert_eq!(
        ExecuteHandler::start_tontine(&mut t, 1001, &admin()),
        Err(ContractError::TontineAlreadyStarted)
    );
    assert!(matches!(
        ExecuteHandler::resume_tontine(&mut t, &admin()),
        Err(ContractError::InvalidStateUpdate { .. })
    ));
    ExecuteHandler::pause_tontine(&mut t, &admin()).unwrap();
    assert!(matches!(
        ExecuteHandler::pause_tontine(&mut t, &admin()),
        Err(ContractError::InvalidStateUpdate { .. })
    ));
    assert!(matches!(
        ExecuteHandler::deposit_contribution(&mut t, 1002, &B1.to_string()),
        Err(ContractError::TontineNotStarted)
    ));
    ExecuteHandler::resume_tontine(&mut t, &admin()).unwrap();
}

/// Closing early finishes the tontine; a start afterwards is rejected.
#[test]
fn close_early_finishes() {
    let mut t = setup();
    ExecuteHandler::register_member(&mut t, 0, &admin(), B1.to_string()).unwrap();
    ExecuteHandler::start_tontine(&mut t, 1000, &admin()).unwrap();

    ExecuteHandler::close_early(&mut t, &admin(), "emergency".to_string()).unwrap();
    let state = QueryHandler::get_tontine_state(&t);
    assert!(!state.is_active && state.is_finished);

    assert_eq!(
        ExecuteHandler::start_tontine(&mut t, 2000, &admin()),
        Err(ContractError::TontineAlreadyFinished)
    );
    assert_eq!(
        ExecuteHandler::close_early(&mut t, &admin(), "again".to_string()),
        Err(ContractError::TontineNotStarted)
    );
}

/// Finalization demands that every round has been held.
#[test]
fn finalize_requires_all_rounds() {
    let mut t = setup();
    ExecuteHandler::register_member(&mut t, 0, &admin(), B1.to_string()).unwrap();
    ExecuteHandler::register_member(&mut t, 0, &admin(), B2.to_string()).unwrap();
    ExecuteHandler::start_tontine(&mut t, 1000, &admin()).unwrap();

    assert!(matches!(
        ExecuteHandler::finalize_tontine(&mut t, &admin()),
        Err(ContractError::InvalidStateUpdate { .. })
    ));

    let mut single = Contract::new()
        .instantiate(msg_with(vec![B1.to_string()]))
        .unwrap();
    ExecuteHandler::register_member(&mut single, 0, &admin(), B1.to_string()).unwrap();
    ExecuteHandler::start_tontine(&mut single, 1000, &admin()).unwrap();
    ExecuteHandler::finalize_tontine(&mut single, &admin()).unwrap();
    let state = QueryHandler::get_tontine_state(&single);
    assert!(state.is_finished && !state.is_active);
}

/// Members cannot be removed or replaced while a round is in progress.
#[test]
fn no_member_changes_during_round() {
    let mut t = setup();
    ExecuteHandler::register_member(&mut t, 0, &admin(), B1.to_string()).unwrap();
    ExecuteHandler::start_tontine(&mut t, 1000, &admin()).unwrap();

    assert_eq!(
        ExecuteHandler::remove_member(&mut t, &admin(), B1.to_string()),
        Err(ContractError::CannotReplaceDuringActiveRound)
    );
    assert_eq!(
        ExecuteHandler::replace_member(
            &mut t,
            0,
            &admin(),
            B1.to_string(),
            "addr_safromember00002".to_string()
        ),
        Err(ContractError::CannotReplaceDuringActiveRound)
    );
}

/// The configuration consistency rules each reject their own field.
#[test]
fn configuration_rules() {
    let base = || msg_with(vec![B1.to_string()]);

    let mut m = base();
    m.contribution_amount = "0".to_string();
    assert_eq!(
        Contract::new().instantiate(m),
        Err(ContractError::InvalidContributionAmount)
    );

    let mut m = base();
    m.round_frequency = 0;
    assert_eq!(
        Contract::new().instantiate(m),
        Err(ContractError::InvalidRoundFrequency)
    );

    let mut m = base();
    m.beneficiaries = vec![];
    assert_eq!(
        Contract::new().instantiate(m),
        Err(ContractError::InvalidBeneficiariesList)
    );

    let mut m = base();
    m.late_penalty = "1000".to_string();
    assert_eq!(
        Contract::new().instantiate(m),
        Err(ContractError::InvalidLatePenaltyAmount)
    );

    let mut m = base();
    m.protocol_fees = "1000".to_string();
    assert_eq!(
        Contract::new().instantiate(m),
        Err(ContractError::InvalidProtocolFeesAmount)
    );

    let mut m = base();
    m.time_guards = 0;
    assert_eq!(
        Contract::new().instantiate(m),
        Err(ContractError::InvalidTimeGuards)
    );

    let mut m = base();
    m.contribution_amount = "not a number".to_string();
    assert!(matches!(
        Contract::new().instantiate(m),
        Err(ContractError::InvalidAmount { .. })
    ));
}

/// The address shape rules: empty, missing tag, too short, too long.
#[test]
fn member_address_rules() {
    assert!(validate_member_address("addr_safromember00001").is_ok());
    assert!(matches!(
        validate_member_address(""),
        Err(ContractError::InvalidMemberManagement { .. })
    ));
    assert!(matches!(
        validate_member_address("member1"),
        Err(ContractError::InvalidMemberManagement { .. })
    ));
    assert!(matches!(
        validate_member_address("addr_safroabc"),
        Err(ContractError::InvalidMemberManagement { .. })
    ));
    let long = format!("addr_safro{}", "x".repeat(45));
    assert!(matches!(
        validate_member_address(&long),
        Err(ContractError::InvalidMemberManagement { .. })
    ));

    let mut t = setup();
    let result = ExecuteHandler::register_member(&mut t, 0, &admin(), "member1".to_string());
    assert!(matches!(
        result,
        Err(ContractError::InvalidMemberManagement { .. })
    ));
}

/// Amount strings parse as non-negative integers, and render back.
#[test]
fn amount_parsing() {
    assert_eq!(validate_amount("0").unwrap(), 0);
    assert_eq!(validate_amount("1000").unwrap(), 1000);
    assert_eq!(
        validate_amount("340282366920938463463374607431768211455").unwrap(),
        u128::MAX
    );
    assert!(matches!(
        validate_amount("340282366920938463463374607431768211456"),
        Err(ContractError::InvalidAmount { .. })
    ));
    assert!(matches!(validate_amount(""), Err(ContractError::InvalidAmount { .. })));
    assert!(matches!(validate_amount("-5"), Err(ContractError::InvalidAmount { .. })));
    assert!(matches!(validate_amount("12a"), Err(ContractError::InvalidAmount { .. })));
    assert!(matches!(validate_amount("1.5"), Err(ContractError::InvalidAmount { .. })));

    assert_eq!(tontine_contract::numeric::u128_to_string(0), "0");
    assert_eq!(tontine_contract::numeric::u128_to_string(990), "990");
    assert_eq!(
        tontine_contract::numeric::u128_to_string(u128::MAX),
        "340282366920938463463374607431768211455"
    );
}

/// The validation-only operations check authorization and inputs but
/// leave every entity untouched.
#[test]
fn stub_operations_validate_only() {
    let mut t = setup();
    ExecuteHandler::register_member(&mut t, 0, &admin(), M1.to_string()).unwrap();
    let arbitrator = "arbitrator".to_string();
    let outsider = "outsider".to_string();

    assert!(ExecuteHandler::advance_payment(&mut t, &admin(), B1.to_string(), "50".to_string()).is_ok());
    assert!(matches!(
        ExecuteHandler::advance_payment(&mut t, &admin(), B1.to_string(), "101".to_string()),
        Err(ContractError::InvalidAmount { .. })
    ));
    assert!(matches!(
        ExecuteHandler::advance_payment(&mut t, &admin(), B1.to_string(), "abc".to_string()),
        Err(ContractError::InvalidAmount { .. })
    ));
    assert!(matches!(
        ExecuteHandler::advance_payment(&mut t, &admin(), M1.to_string(), "50".to_string()),
        Err(ContractError::InvalidMemberManagement { .. })
    ));

    assert!(ExecuteHandler::declare_late(&mut t, &arbitrator, M1.to_string()).is_ok());
    assert!(matches!(
        ExecuteHandler::declare_late(&mut t, &admin(), B2.to_string()),
        Err(ContractError::MemberNotFound { .. })
    ));
    assert!(matches!(
        ExecuteHandler::declare_late(&mut t, &outsider, M1.to_string()),
        Err(ContractError::Unauthorized { .. })
    ));

    assert!(ExecuteHandler::apply_penalty(&mut t, &arbitrator, M1.to_string(), "5".to_string()).is_ok());
    assert!(matches!(
        ExecuteHandler::apply_penalty(&mut t, &admin(), M1.to_string(), "x".to_string()),
        Err(ContractError::InvalidAmount { .. })
    ));

    assert!(ExecuteHandler::pay_penalty(&mut t, &M1.to_string(), M1.to_string()).is_ok());
    assert!(matches!(
        ExecuteHandler::pay_penalty(&mut t, &admin(), M1.to_string()),
        Err(ContractError::Unauthorized { .. })
    ));

    assert!(ExecuteHandler::withdraw_fees(&mut t, &admin()).is_ok());
    assert!(ExecuteHandler::collect_protocol_fees(&mut t, &admin()).is_ok());
    assert!(ExecuteHandler::resolve_dispute(&mut t, &admin(), M1.to_string(), "ok".to_string()).is_ok());
    assert!(matches!(
        ExecuteHandler::arbitrate_dispute(&mut t, &admin(), M1.to_string(), "no".to_string()),
        Err(ContractError::Unauthorized { .. })
    ));
    assert!(ExecuteHandler::arbitrate_dispute(&mut t, &arbitrator, M1.to_string(), "ok".to_string())
        .is_ok());
    assert!(ExecuteHandler::migrate(&mut t, &admin(), 2).is_ok());

    // None of this touched any entity.
    assert_eq!(QueryHandler::get_member_count(&t), 1);
    assert_eq!(QueryHandler::get_member_penalties(&t, &M1.to_string()).unwrap(), "0");
    assert_eq!(QueryHandler::get_pending_penalties(&t), "0");
    assert_eq!(QueryHandler::get_accumulated_fees(&t), "0");
}

/// The derived read model: member balances, histories, schedule and
/// statistics over a played round.
#[test]
fn read_model_aggregates() {
    let mut t = setup();
    ExecuteHandler::register_member(&mut t, 0, &admin(), B1.to_string()).unwrap();
    ExecuteHandler::register_member(&mut t, 0, &admin(), B2.to_string()).unwrap();
    ExecuteHandler::start_tontine(&mut t, 1000, &admin()).unwrap();
    ExecuteHandler::deposit_contribution(&mut t, 2000, &B1.to_string()).unwrap();
    ExecuteHandler::deposit_contribution(&mut t, 3000, &B2.to_string()).unwrap();

    assert_eq!(QueryHandler::get_tontine_balance(&t), "2000");
    assert_eq!(QueryHandler::get_total_contributions(&t), "2000");
    // Each depositor is credited with the whole balance of the rounds they
    // joined.
    assert_eq!(QueryHandler::get_member_balance(&t, &B1.to_string()).unwrap(), "2000");
    let members = QueryHandler::get_members(&t);
    assert_eq!(members.len(), 2);
    assert_eq!(members[0].balance, "2000");

    let deposits = QueryHandler::get_deposit_history(&t);
    assert_eq!(deposits.deposits.len(), 2);
    assert_eq!(deposits.deposits[0].member, B1);
    assert_eq!(deposits.deposits[0].amount, "1000");
    assert_eq!(deposits.deposits[1].member, B2);

    let schedule = QueryHandler::get_beneficiary_schedule(&t);
    assert_eq!(schedule, vec![(1, B1.to_string()), (2, B2.to_string())]);
    assert_eq!(QueryHandler::get_beneficiaries_list(&t), vec![B1.to_string(), B2.to_string()]);
    assert_eq!(QueryHandler::get_current_beneficiary(&t).unwrap(), B1);
    assert_eq!(QueryHandler::get_next_beneficiary(&t), B2);
    assert_eq!(QueryHandler::get_round_deadline(&t, 1).unwrap(), 1000 + 86400);
    assert_eq!(QueryHandler::get_time_guards(&t), 3600);
    assert_eq!(QueryHandler::get_round_frequency(&t), 86400);

    ExecuteHandler::distribute_to_beneficiary(&mut t, 1000 + 86400 + 1, &admin()).unwrap();
    let stats = QueryHandler::get_statistics(&t);
    assert_eq!(stats.member_count, 2);
    assert_eq!(stats.total_contributions, "2000");
    assert_eq!(stats.total_distributions, "1980");
    assert_eq!(stats.total_fees, "20");
    assert_eq!(stats.active_rounds, 0);
    assert_eq!(stats.completed_rounds, 1);
    assert_eq!(QueryHandler::get_total_distributions(&t), "1980");
    assert_eq!(QueryHandler::get_total_penalties(&t), "0");
    assert_eq!(QueryHandler::get_round_state(&t, 1).unwrap(), RoundState::Distributed);
    // After the only configured distribution, no next beneficiary is due.
    let done = QueryHandler::get_next_beneficiary(&t);
    assert_eq!(done, B2);

    let escrow = QueryHandler::get_escrow_state(&t);
    assert!(!escrow.is_locked);
    assert_eq!(escrow.locked_amount, "0");
    assert_eq!(QueryHandler::get_dispute_state(&t).active_disputes.len(), 0);
    assert_eq!(QueryHandler::get_penalty_history(&t).penalties.len(), 0);
}

/// The address length bounds are inclusive: twenty and fifty characters
/// pass, nineteen and fifty-one do not.
#[test]
fn address_length_bounds() {
    let at_20 = format!("addr_safro{}", "x".repeat(10));
    let at_50 = format!("addr_safro{}", "x".repeat(40));
    let at_19 = format!("addr_safro{}", "x".repeat(9));
    let at_51 = format!("addr_safro{}", "x".repeat(41));
    assert!(validate_member_address(&at_20).is_ok());
    assert!(validate_member_address(&at_50).is_ok());
    assert!(validate_member_address(&at_19).is_err());
    assert!(validate_member_address(&at_51).is_err());
}

/// Round numbers are one-based: round zero never exists.
#[test]
fn round_zero_absent() {
    let mut t = setup();
    ExecuteHandler::register_member(&mut t, 0, &admin(), B1.to_string()).unwrap();
    ExecuteHandler::start_tontine(&mut t, 1000, &admin()).unwrap();
    assert_eq!(
        QueryHandler::get_round_state(&t, 0),
        Err(ContractError::InvalidRound { round: 0 })
    );
    assert!(QueryHandler::get_round_state(&t, 1).is_ok());
    assert_eq!(
        QueryHandler::get_round_state(&t, 2),
        Err(ContractError::InvalidRound { round: 2 })
    );
}

/// Queries about absent records are rejected with the matching errors.
#[test]
fn query_errors() {
    let t = setup();
    assert!(matches!(
        QueryHandler::get_member(&t, &M1.to_string()),
        Err(ContractError::MemberNotFound { .. })
    ));
    assert_eq!(
        QueryHandler::get_current_round(&t),
        Err(ContractError::NoActiveRound)
    );
    assert_eq!(
        QueryHandler::get_round_info(&t, 1),
        Err(ContractError::InvalidRound { round: 1 })
    );
    assert_eq!(
        QueryHandler::get_round_balance(&t, 7),
        Err(ContractError::InvalidRound { round: 7 })
    );
    assert_eq!(
        QueryHandler::get_next_beneficiary(&t),
        "No next beneficiary - tontine completed"
    );
    let member = "addr_safromember00009".to_string();
    assert!(matches!(
        QueryHandler::get_member_balance(&t, &member),
        Err(ContractError::MemberNotFound { .. })
    ));
}
