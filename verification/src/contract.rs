use vstd::prelude::*;

use crate::error::ContractError;
use crate::msg::InstantiateMsg;
use crate::numeric::{dec_value, spec_parse_u128_ok};
use crate::state::{
    config_valid, initialize_state, spec_config_error, validate_amount, validate_config, Config,
    EntityStore,
};

verus! {

/// The configuration an instantiation message denotes, once its amount
/// strings have parsed.
pub open spec fn spec_config_of(msg: InstantiateMsg) -> Config {
    Config {
        admin: msg.admin,
        token_denom: msg.token_denom,
        contribution_amount: dec_value(msg.contribution_amount@) as u128,
        round_frequency: msg.round_frequency,
        beneficiaries: msg.beneficiaries,
        late_penalty: dec_value(msg.late_penalty@) as u128,
        protocol_fees: dec_value(msg.protocol_fees@) as u128,
        arbitrator: msg.arbitrator,
        time_guards: msg.time_guards,
    }
}

/// The engine's entry point: turns a creation message into a fresh store.
pub struct Contract;

impl Contract {
    pub fn new() -> (c: Contract) {
        Contract
    }

    /// Creates a tontine: parses the amount strings, checks the
    /// configuration consistency rules, and returns the initial store.
    pub fn instantiate(&self, msg: InstantiateMsg) -> (r: Result<EntityStore, ContractError>)
        ensures
            !spec_parse_u128_ok(msg.contribution_amount@) ==> (r matches Err(e)
                && e is InvalidAmount),
            spec_parse_u128_ok(msg.contribution_amount@) && !spec_parse_u128_ok(msg.late_penalty@)
                ==> (r matches Err(e) && e is InvalidAmount),
            spec_parse_u128_ok(msg.contribution_amount@) && spec_parse_u128_ok(msg.late_penalty@)
                && !spec_parse_u128_ok(msg.protocol_fees@) ==> (r matches Err(e)
                && e is InvalidAmount),
            spec_parse_u128_ok(msg.contribution_amount@) && spec_parse_u128_ok(msg.late_penalty@)
                && spec_parse_u128_ok(msg.protocol_fees@) ==> ({
                let c = spec_config_of(msg);
                &&& (!config_valid(c) ==> r == Result::<EntityStore, ContractError>::Err(
                    spec_config_error(c),
                ))
                &&& (config_valid(c) ==> (r matches Ok(t) && t.wf() && t.config == c
                    && !t.state.is_active && !t.state.is_paused && !t.state.is_finished
                    && t.state.current_round == 0 && t.state.total_rounds == 0
                    && t.state.start_time is None && t.state.last_round_time is None
                    && !t.escrow.is_locked && t.escrow.locked_amount == 0
                    && t.escrow.lock_reason@.len() == 0 && t.escrow.lock_timestamp is None
                    && t.accumulated_fees == 0 && t.members@.len() == 0 && t.rounds@.len() == 0
                    && t.distributions@.len() == 0 && t.penalties@.len() == 0))
            }),
    {
        let contribution_amount = match validate_amount(msg.contribution_amount.as_str()) {
            Ok(v) => v,
            Err(e) => {
                return Err(e);
            },
        };
        let late_penalty = match validate_amount(msg.late_penalty.as_str()) {
            Ok(v) => v,
            Err(e) => {
                return Err(e);
            },
        };
        let protocol_fees = match validate_amount(msg.protocol_fees.as_str()) {
            Ok(v) => v,
            Err(e) => {
                return Err(e);
            },
        };
        let config = Config {
            admin: msg.admin,
            token_denom: msg.token_denom,
            contribution_amount,
            round_frequency: msg.round_frequency,
            beneficiaries: msg.beneficiaries,
            late_penalty,
            protocol_fees,
            arbitrator: msg.arbitrator,
            time_guards: msg.time_guards,
        };
        match validate_config(&config) {
            Ok(()) => {},
            Err(e) => {
                return Err(e);
            },
        }
        Ok(initialize_state(config))
    }
}

} // verus!
