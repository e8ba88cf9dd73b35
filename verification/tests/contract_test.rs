use tontine_contract::contract::Contract;
use tontine_contract::error::ContractError;
use tontine_contract::execute::ExecuteHandler;
use tontine_contract::msg::{InstantiateMsg, MemberStatus};
use tontine_contract::query::QueryHandler;
use tontine_contract::state::EntityStore;

const B1: &str = "addr_safro1beneficiary";
const B2: &str = "addr_safro2beneficiary";

fn default_msg() -> InstantiateMsg {
    InstantiateMsg {
        admin: "admin".to_string(),
        token_denom: "usaf".to_string(),
        contribution_amount: "1000".to_string(),
        round_frequency: 86400,
        beneficiaries: vec![B1.to_string(), B2.to_string()],
        late_penalty: "50".to_string(),
        protocol_fees: "10".to_string(),
        arbitrator: "arbitrator".to_string(),
        time_guards: 3600,
    }
}

fn setup() -> EntityStore {
    Contract::new().instantiate(default_msg()).unwrap()
}

fn admin() -> String {
    "admin".to_string()
}

#[test]
fn test_instantiate() {
    let result = Contract::new().instantiate(default_msg());
    assert!(result.is_ok());
}

#[test]
fn test_contract_instantiation() {
    let result = Contract::new().instantiate(default_msg());
    assert!(result.is_ok());
}

#[test]
fn test_member_registration() {
    let mut t = setup();

    let result = ExecuteHandler::register_member(&mut t, 0, &admin(), B1.to_string());
    assert!(result.is_ok());

    let members = QueryHandler::get_members(&t);
    assert_eq!(members.len(), 1);
    assert_eq!(members[0].address, B1);
    assert_eq!(members[0].status, MemberStatus::Active);
}

#[test]
fn test_tontine_lifecycle() {
    let mut t = setup();

    ExecuteHandler::register_member(&mut t, 0, &admin(), B1.to_string()).unwrap();
    ExecuteHandler::register_member(&mut t, 0, &admin(), B2.to_string()).unwrap();

    let result = ExecuteHandler::start_tontine(&mut t, 1000, &admin());
    assert!(result.is_ok());

    let state = QueryHandler::get_tontine_state(&t);
    assert!(state.is_active);
    assert_eq!(state.current_round, 1);
    assert_eq!(state.total_rounds, 2);

    let result = ExecuteHandler::pause_tontine(&mut t, &admin());
    assert!(result.is_ok());

    let result = ExecuteHandler::resume_tontine(&mut t, &admin());
    assert!(result.is_ok());
}

#[test]
fn test_contribution_deposit() {
    let mut t = setup();

    ExecuteHandler::register_member(&mut t, 0, &admin(), B1.to_string()).unwrap();
    ExecuteHandler::start_tontine(&mut t, 1000, &admin()).unwrap();

    let result = ExecuteHandler::deposit_contribution(&mut t, 2000, &B1.to_string());
    assert!(result.is_ok());

    let round = QueryHandler::get_current_round(&t).unwrap();
    assert_eq!(round.balance, 1000);
    assert_eq!(round.deposits.len(), 1);
}

#[test]
fn test_unauthorized_operations() {
    let mut t = setup();
    let non_admin = "non_admin".to_string();

    let result = ExecuteHandler::register_member(&mut t, 0, &non_admin, B1.to_string());
    assert!(result.is_err());

    let result = ExecuteHandler::start_tontine(&mut t, 1000, &non_admin);
    assert!(result.is_err());
}

#[test]
fn test_configuration_queries() {
    let t = setup();

    let response = QueryHandler::get_config(&t);
    assert_eq!(response.admin, "admin");
    assert_eq!(response.token_denom, "usaf");
    assert_eq!(response.contribution_amount, "1000");
    assert_eq!(response.round_frequency, 86400);
    assert_eq!(response.beneficiaries.len(), 2);
    assert_eq!(response.late_penalty, "50");
    assert_eq!(response.protocol_fees, "10");
    assert_eq!(response.arbitrator, "arbitrator");
    assert_eq!(response.time_guards, 3600);

    let admin = QueryHandler::get_admin(&t);
    assert_eq!(admin, "admin");

    let arbitrator = QueryHandler::get_arbitrator(&t);
    assert_eq!(arbitrator, "arbitrator");
}

#[test]
fn test_member_management() {
    let mut t = setup();

    let members = vec![
        "addr_safromember00001",
        "addr_safromember00002",
        "addr_safromember00003",
    ];

    for member in &members {
        let result = ExecuteHandler::register_member(&mut t, 0, &admin(), member.to_string());
        assert!(result.is_ok());
    }

    let count = QueryHandler::get_member_count(&t);
    assert_eq!(count, 3);

    let member = QueryHandler::get_member(&t, &members[0].to_string()).unwrap();
    assert_eq!(member.address, members[0]);
    assert_eq!(member.status, MemberStatus::Active);

    let result = ExecuteHandler::remove_member(&mut t, &admin(), members[0].to_string());
    assert!(result.is_ok());

    let count = QueryHandler::get_member_count(&t);
    assert_eq!(count, 2);
}

#[test]
fn test_round_operations() {
    let mut t = setup();

    ExecuteHandler::register_member(&mut t, 0, &admin(), B1.to_string()).unwrap();
    ExecuteHandler::register_member(&mut t, 0, &admin(), B2.to_string()).unwrap();
    ExecuteHandler::start_tontine(&mut t, 1000, &admin()).unwrap();

    let round = QueryHandler::get_current_round(&t).unwrap();
    assert_eq!(round.round_number, 1);
    assert_eq!(round.beneficiary, B1);
}

#[test]
fn test_error_handling() {
    let mut t = setup();

    let result = ExecuteHandler::start_tontine(&mut t, 1000, &admin());
    assert!(result.is_err());

    let member = "addr_safromember00001";
    ExecuteHandler::register_member(&mut t, 0, &admin(), member.to_string()).unwrap();

    let result = ExecuteHandler::register_member(&mut t, 0, &admin(), member.to_string());
    assert!(result.is_err());
    assert!(matches!(
        result,
        Err(ContractError::MemberAlreadyExists { .. })
    ));
}
