use vstd::prelude::*;
use vstd::string::StringExecFns;

use crate::error::ContractError;
use crate::msg::{
    ConfigResponse, DepositHistoryResponse, DepositResponse, DisputeStateResponse,
    DistributionHistoryResponse, DistributionResponse, EscrowStateResponse, MemberResponse,
    MemberStatus, PenaltyHistoryResponse, PenaltyResponse, RoundState, StatisticsResponse,
    TontineStateResponse,
};
use crate::numeric::{dec_digits, u128_to_string};
use crate::state::{
    member_at, member_deposited, members_unique, spec_has_member, Deposit, Distribution,
    EntityStore, Member, Penalty, Round,
};

verus! {

/// The total of the round balances.
pub open spec fn sum_round_balances(rounds: Seq<Round>) -> int
    decreases rounds.len(),
{
    if rounds.len() == 0 {
        0
    } else {
        sum_round_balances(rounds.drop_last()) + rounds.last().balance
    }
}

/// The total of the balances of the rounds the member with address `addr`
/// contributed to.
pub open spec fn sum_balances_for(rounds: Seq<Round>, addr: Seq<char>) -> int
    decreases rounds.len(),
{
    if rounds.len() == 0 {
        0
    } else {
        sum_balances_for(rounds.drop_last(), addr) + if member_deposited(
            rounds.last().deposits@,
            addr,
        ) {
            rounds.last().balance as int
        } else {
            0int
        }
    }
}

/// The total of the distribution amounts.
pub open spec fn sum_distribution_amounts(ds: Seq<Distribution>) -> int
    decreases ds.len(),
{
    if ds.len() == 0 {
        0
    } else {
        sum_distribution_amounts(ds.drop_last()) + ds.last().amount
    }
}

/// The total of the penalty amounts.
pub open spec fn sum_penalty_amounts(ps: Seq<Penalty>) -> int
    decreases ps.len(),
{
    if ps.len() == 0 {
        0
    } else {
        sum_penalty_amounts(ps.drop_last()) + ps.last().amount
    }
}

/// The total of the unpaid penalty amounts.
pub open spec fn sum_unpaid_penalty_amounts(ps: Seq<Penalty>) -> int
    decreases ps.len(),
{
    if ps.len() == 0 {
        0
    } else {
        sum_unpaid_penalty_amounts(ps.drop_last()) + if !ps.last().is_paid {
            ps.last().amount as int
        } else {
            0int
        }
    }
}

/// Every deposit of every round, in round order.
pub open spec fn all_round_deposits(rounds: Seq<Round>) -> Seq<Deposit>
    decreases rounds.len(),
{
    if rounds.len() == 0 {
        Seq::empty()
    } else {
        all_round_deposits(rounds.drop_last()) + rounds.last().deposits@
    }
}

/// How many rounds are in the given state.
pub open spec fn count_rounds_in_state(rounds: Seq<Round>, st: RoundState) -> int
    decreases rounds.len(),
{
    if rounds.len() == 0 {
        0
    } else {
        count_rounds_in_state(rounds.drop_last(), st) + if rounds.last().state == st {
            1int
        } else {
            0int
        }
    }
}

proof fn lemma_sum_round_balances_prefix(rounds: Seq<Round>, i: int)
    requires
        0 <= i <= rounds.len(),
    ensures
        sum_round_balances(rounds.subrange(0, i)) <= sum_round_balances(rounds),
    decreases rounds.len() - i, rounds.len(),
{
    if i == rounds.len() {
        assert(rounds.subrange(0, i) =~= rounds);
    } else {
        assert(rounds.subrange(0, i + 1).drop_last() =~= rounds.subrange(0, i));
        assert(rounds.subrange(0, i + 1).last() == rounds[i]);
        lemma_sum_round_balances_prefix(rounds, i + 1);
    }
}

proof fn lemma_sum_balances_for_prefix(rounds: Seq<Round>, addr: Seq<char>, i: int)
    requires
        0 <= i <= rounds.len(),
    ensures
        sum_balances_for(rounds.subrange(0, i), addr) <= sum_balances_for(rounds, addr),
    decreases rounds.len() - i, rounds.len(),
{
    if i == rounds.len() {
        assert(rounds.subrange(0, i) =~= rounds);
    } else {
        assert(rounds.subrange(0, i + 1).drop_last() =~= rounds.subrange(0, i));
        assert(rounds.subrange(0, i + 1).last() == rounds[i]);
        lemma_sum_balances_for_prefix(rounds, addr, i + 1);
    }
}

/// A member's derived balance never exceeds the total held over all
/// rounds.
pub proof fn lemma_sum_balances_for_le(rounds: Seq<Round>, addr: Seq<char>)
    ensures
        0 <= sum_balances_for(rounds, addr) <= sum_round_balances(rounds),
    decreases rounds.len(),
{
    if rounds.len() == 0 {
    } else {
        lemma_sum_balances_for_le(rounds.drop_last(), addr);
    }
}

proof fn lemma_sum_distribution_amounts_prefix(ds: Seq<Distribution>, i: int)
    requires
        0 <= i <= ds.len(),
    ensures
        sum_distribution_amounts(ds.subrange(0, i)) <= sum_distribution_amounts(ds),
    decreases ds.len() - i, ds.len(),
{
    if i == ds.len() {
        assert(ds.subrange(0, i) =~= ds);
    } else {
        assert(ds.subrange(0, i + 1).drop_last() =~= ds.subrange(0, i));
        assert(ds.subrange(0, i + 1).last() == ds[i]);
        lemma_sum_distribution_amounts_prefix(ds, i + 1);
    }
}

proof fn lemma_sum_penalty_amounts_prefix(ps: Seq<Penalty>, i: int)
    requires
        0 <= i <= ps.len(),
    ensures
        sum_penalty_amounts(ps.subrange(0, i)) <= sum_penalty_amounts(ps),
    decreases ps.len() - i, ps.len(),
{
    if i == ps.len() {
        assert(ps.subrange(0, i) =~= ps);
    } else {
        assert(ps.subrange(0, i + 1).drop_last() =~= ps.subrange(0, i));
        assert(ps.subrange(0, i + 1).last() == ps[i]);
        lemma_sum_penalty_amounts_prefix(ps, i + 1);
    }
}

proof fn lemma_sum_unpaid_penalty_amounts_prefix(ps: Seq<Penalty>, i: int)
    requires
        0 <= i <= ps.len(),
    ensures
        sum_unpaid_penalty_amounts(ps.subrange(0, i)) <= sum_unpaid_penalty_amounts(ps),
    decreases ps.len() - i, ps.len(),
{
    if i == ps.len() {
        assert(ps.subrange(0, i) =~= ps);
    } else {
        assert(ps.subrange(0, i + 1).drop_last() =~= ps.subrange(0, i));
        assert(ps.subrange(0, i + 1).last() == ps[i]);
        lemma_sum_unpaid_penalty_amounts_prefix(ps, i + 1);
    }
}

/// Two rounds hold the same data, compared through the deposits' view.
pub open spec fn same_round(a: Round, b: Round) -> bool {
    &&& a.round_number == b.round_number
    &&& a.state == b.state
    &&& a.balance == b.balance
    &&& a.beneficiary == b.beneficiary
    &&& a.deadline == b.deadline
    &&& a.deposits@ == b.deposits@
    &&& a.is_distributed == b.is_distributed
    &&& a.distribution_time == b.distribution_time
}

fn copy_strings(v: &Vec<String>) -> (r: Vec<String>)
    ensures
        r@ == v@,
{
    let mut r: Vec<String> = Vec::new();
    let mut i: usize = 0;
    while i < v.len()
        invariant
            i <= v@.len(),
            r@ == v@.subrange(0, i as int),
        decreases v@.len() - i,
    {
        r.push(v[i].clone());
        proof {
            assert(r@ =~= v@.subrange(0, i as int + 1));
        }
        i = i + 1;
    }
    proof {
        assert(v@.subrange(0, v@.len() as int) =~= v@);
    }
    r
}

fn copy_deposit(d: &Deposit) -> (r: Deposit)
    ensures
        r == *d,
{
    Deposit { member: d.member.clone(), amount: d.amount, timestamp: d.timestamp, is_late: d.is_late }
}

fn copy_deposits(ds: &Vec<Deposit>) -> (r: Vec<Deposit>)
    ensures
        r@ == ds@,
{
    let mut r: Vec<Deposit> = Vec::new();
    let mut i: usize = 0;
    while i < ds.len()
        invariant
            i <= ds@.len(),
            r@ == ds@.subrange(0, i as int),
        decreases ds@.len() - i,
    {
        r.push(copy_deposit(&ds[i]));
        proof {
            assert(r@ =~= ds@.subrange(0, i as int + 1));
        }
        i = i + 1;
    }
    proof {
        assert(ds@.subrange(0, ds@.len() as int) =~= ds@);
    }
    r
}

fn copy_round(rd: &Round) -> (r: Round)
    ensures
        same_round(r, *rd),
{
    Round {
        round_number: rd.round_number,
        state: rd.state,
        balance: rd.balance,
        beneficiary: rd.beneficiary.clone(),
        deadline: rd.deadline,
        deposits: copy_deposits(&rd.deposits),
        is_distributed: rd.is_distributed,
        distribution_time: rd.distribution_time,
    }
}

fn member_has_deposit(deposits: &Vec<Deposit>, address: &String) -> (r: bool)
    ensures
        r == member_deposited(deposits@, address@),
{
    let mut i: usize = 0;
    while i < deposits.len()
        invariant
            i <= deposits@.len(),
            forall|j: int| 0 <= j < i ==> deposits@[j].member@ != address@,
        decreases deposits@.len() - i,
    {
        if deposits[i].member == *address {
            return true;
        }
        i = i + 1;
    }
    false
}

fn total_round_balance(rounds: &Vec<Round>) -> (s: u128)
    requires
        sum_round_balances(rounds@) <= u128::MAX,
    ensures
        s == sum_round_balances(rounds@),
{
    let mut s: u128 = 0;
    let mut i: usize = 0;
    while i < rounds.len()
        invariant
            i <= rounds@.len(),
            s == sum_round_balances(rounds@.subrange(0, i as int)),
            sum_round_balances(rounds@) <= u128::MAX,
        decreases rounds@.len() - i,
    {
        proof {
            assert(rounds@.subrange(0, i as int + 1).drop_last() =~= rounds@.subrange(0, i as int));
            assert(rounds@.subrange(0, i as int + 1).last() == rounds@[i as int]);
            lemma_sum_round_balances_prefix(rounds@, i as int + 1);
        }
        s = s + rounds[i].balance;
        i = i + 1;
    }
    proof {
        assert(rounds@.subrange(0, rounds@.len() as int) =~= rounds@);
    }
    s
}

fn member_round_balance(rounds: &Vec<Round>, address: &String) -> (s: u128)
    requires
        sum_round_balances(rounds@) <= u128::MAX,
    ensures
        s == sum_balances_for(rounds@, address@),
{
    proof {
        lemma_sum_balances_for_le(rounds@, address@);
    }
    let mut s: u128 = 0;
    let mut i: usize = 0;
    while i < rounds.len()
        invariant
            i <= rounds@.len(),
            s == sum_balances_for(rounds@.subrange(0, i as int), address@),
            sum_balances_for(rounds@, address@) <= u128::MAX,
        decreases rounds@.len() - i,
    {
        proof {
            assert(rounds@.subrange(0, i as int + 1).drop_last() =~= rounds@.subrange(0, i as int));
            assert(rounds@.subrange(0, i as int + 1).last() == rounds@[i as int]);
            lemma_sum_balances_for_prefix(rounds@, address@, i as int + 1);
        }
        if member_has_deposit(&rounds[i].deposits, address) {
            s = s + rounds[i].balance;
        }
        i = i + 1;
    }
    proof {
        assert(rounds@.subrange(0, rounds@.len() as int) =~= rounds@);
    }
    s
}

fn total_distribution_amount(ds: &Vec<Distribution>) -> (s: u128)
    requires
        sum_distribution_amounts(ds@) <= u128::MAX,
    ensures
        s == sum_distribution_amounts(ds@),
{
    let mut s: u128 = 0;
    let mut i: usize = 0;
    while i < ds.len()
        invariant
            i <= ds@.len(),
            s == sum_distribution_amounts(ds@.subrange(0, i as int)),
            sum_distribution_amounts(ds@) <= u128::MAX,
        decreases ds@.len() - i,
    {
        proof {
            assert(ds@.subrange(0, i as int + 1).drop_last() =~= ds@.subrange(0, i as int));
            assert(ds@.subrange(0, i as int + 1).last() == ds@[i as int]);
            lemma_sum_distribution_amounts_prefix(ds@, i as int + 1);
        }
        s = s + ds[i].amount;
        i = i + 1;
    }
    proof {
        assert(ds@.subrange(0, ds@.len() as int) =~= ds@);
    }
    s
}

fn total_penalty_amount(ps: &Vec<Penalty>) -> (s: u128)
    requires
        sum_penalty_amounts(ps@) <= u128::MAX,
    ensures
        s == sum_penalty_amounts(ps@),
{
    let mut s: u128 = 0;
    let mut i: usize = 0;
    while i < ps.len()
        invariant
            i <= ps@.len(),
            s == sum_penalty_amounts(ps@.subrange(0, i as int)),
            sum_penalty_amounts(ps@) <= u128::MAX,
        decreases ps@.len() - i,
    {
        proof {
            assert(ps@.subrange(0, i as int + 1).drop_last() =~= ps@.subrange(0, i as int));
            assert(ps@.subrange(0, i as int + 1).last() == ps@[i as int]);
            lemma_sum_penalty_amounts_prefix(ps@, i as int + 1);
        }
        s = s + ps[i].amount;
        i = i + 1;
    }
    proof {
        assert(ps@.subrange(0, ps@.len() as int) =~= ps@);
    }
    s
}

fn total_unpaid_penalty_amount(ps: &Vec<Penalty>) -> (s: u128)
    requires
        sum_unpaid_penalty_amounts(ps@) <= u128::MAX,
    ensures
        s == sum_unpaid_penalty_amounts(ps@),
{
    let mut s: u128 = 0;
    let mut i: usize = 0;
    while i < ps.len()
        invariant
            i <= ps@.len(),
            s == sum_unpaid_penalty_amounts(ps@.subrange(0, i as int)),
            sum_unpaid_penalty_amounts(ps@) <= u128::MAX,
        decreases ps@.len() - i,
    {
        proof {
            assert(ps@.subrange(0, i as int + 1).drop_last() =~= ps@.subrange(0, i as int));
            assert(ps@.subrange(0, i as int + 1).last() == ps@[i as int]);
            lemma_sum_unpaid_penalty_amounts_prefix(ps@, i as int + 1);
        }
        if !ps[i].is_paid {
            s = s + ps[i].amount;
        }
        i = i + 1;
    }
    proof {
        assert(ps@.subrange(0, ps@.len() as int) =~= ps@);
    }
    s
}

fn count_rounds(rounds: &Vec<Round>, st: RoundState) -> (c: usize)
    ensures
        c == count_rounds_in_state(rounds@, st),
{
    let mut c: usize = 0;
    let mut i: usize = 0;
    while i < rounds.len()
        invariant
            i <= rounds@.len(),
            c <= i,
            c == count_rounds_in_state(rounds@.subrange(0, i as int), st),
        decreases rounds@.len() - i,
    {
        proof {
            assert(rounds@.subrange(0, i as int + 1).drop_last() =~= rounds@.subrange(0, i as int));
            assert(rounds@.subrange(0, i as int + 1).last() == rounds@[i as int]);
        }
        if rounds[i].state == st {
            c = c + 1;
        }
        i = i + 1;
    }
    proof {
        assert(rounds@.subrange(0, rounds@.len() as int) =~= rounds@);
    }
    c
}

/// What a member row of the member listing must hold: the record's own
/// fields, with the balance derived from the rounds the member
/// contributed to.
pub open spec fn member_response_matches(mr: MemberResponse, m: Member, rounds: Seq<Round>) -> bool {
    &&& mr.address == m.address
    &&& mr.status == m.status
    &&& mr.balance@ == dec_digits(sum_balances_for(rounds, m.address@))
    &&& mr.penalties@ == dec_digits(m.penalties as int)
    &&& mr.last_contribution == m.last_contribution
    &&& mr.is_late == m.is_late
}

/// What a row of the distribution history must hold.
pub open spec fn distribution_response_matches(dr: DistributionResponse, d: Distribution) -> bool {
    &&& dr.round == d.round
    &&& dr.beneficiary == d.beneficiary
    &&& dr.amount@ == dec_digits(d.amount as int)
    &&& dr.timestamp == d.timestamp
}

/// What a row of the penalty history must hold.
pub open spec fn penalty_response_matches(pr: PenaltyResponse, p: Penalty) -> bool {
    &&& pr.member == p.member
    &&& pr.amount@ == dec_digits(p.amount as int)
    &&& pr.reason == p.reason
    &&& pr.timestamp == p.timestamp
    &&& pr.is_paid == p.is_paid
}

/// What a row of the deposit history must hold.
pub open spec fn deposit_response_matches(dr: DepositResponse, d: Deposit) -> bool {
    &&& dr.member == d.member
    &&& dr.amount@ == dec_digits(d.amount as int)
    &&& dr.timestamp == d.timestamp
    &&& dr.is_late == d.is_late
}

/// The read model: answers every read-only request by scanning the store.
pub struct QueryHandler;

impl QueryHandler {
    /// The configuration together with the lifecycle flags.
    pub fn get_config(t: &EntityStore) -> (r: ConfigResponse)
        ensures
            r.admin == t.config.admin,
            r.token_denom == t.config.token_denom,
            r.contribution_amount@ == dec_digits(t.config.contribution_amount as int),
            r.round_frequency == t.config.round_frequency,
            r.beneficiaries@ == t.config.beneficiaries@,
            r.late_penalty@ == dec_digits(t.config.late_penalty as int),
            r.protocol_fees@ == dec_digits(t.config.protocol_fees as int),
            r.arbitrator == t.config.arbitrator,
            r.time_guards == t.config.time_guards,
            r.is_active == t.state.is_active,
            r.is_paused == t.state.is_paused,
            r.is_finished == t.state.is_finished,
    {
        ConfigResponse {
            admin: t.config.admin.clone(),
            token_denom: t.config.token_denom.clone(),
            contribution_amount: u128_to_string(t.config.contribution_amount),
            round_frequency: t.config.round_frequency,
            beneficiaries: copy_strings(&t.config.beneficiaries),
            late_penalty: u128_to_string(t.config.late_penalty),
            protocol_fees: u128_to_string(t.config.protocol_fees),
            arbitrator: t.config.arbitrator.clone(),
            time_guards: t.config.time_guards,
            is_active: t.state.is_active,
            is_paused: t.state.is_paused,
            is_finished: t.state.is_finished,
        }
    }

    /// The admin's address.
    pub fn get_admin(t: &EntityStore) -> (r: String)
        ensures
            r == t.config.admin,
    {
        t.config.admin.clone()
    }

    /// The arbitrator's address.
    pub fn get_arbitrator(t: &EntityStore) -> (r: String)
        ensures
            r == t.config.arbitrator,
    {
        t.config.arbitrator.clone()
    }

    /// One member, with the balance field left as a placeholder.
    pub fn get_member(t: &EntityStore, address: &String) -> (r: Result<
        MemberResponse,
        ContractError,
    >)
        requires
            members_unique(t.members@),
        ensures
            r is Ok <==> spec_has_member(t.members@, address@),
            r matches Ok(m) ==> ({
                let rec = t.members@[member_at(t.members@, address@)];
                &&& m.address == rec.address
                &&& m.status == rec.status
                &&& m.balance@ == "0"@
                &&& m.penalties@ == dec_digits(rec.penalties as int)
                &&& m.last_contribution == rec.last_contribution
                &&& m.is_late == rec.is_late
            }),
            r matches Err(e) ==> e is MemberNotFound,
    {
        let m = match crate::state::get_member(t, address) {
            Ok(m) => m,
            Err(e) => {
                return Err(e);
            },
        };
        Ok(MemberResponse {
            address: m.address.clone(),
            status: m.status,
            balance: String::from_str("0"),
            penalties: u128_to_string(m.penalties),
            last_contribution: m.last_contribution,
            is_late: m.is_late,
        })
    }

    /// One member's status.
    pub fn get_member_status(t: &EntityStore, address: &String) -> (r: Result<
        MemberStatus,
        ContractError,
    >)
        requires
            members_unique(t.members@),
        ensures
            r is Ok <==> spec_has_member(t.members@, address@),
            r matches Ok(s) ==> s == t.members@[member_at(t.members@, address@)].status,
            r matches Err(e) ==> e is MemberNotFound,
    {
        match crate::state::get_member(t, address) {
            Ok(m) => Ok(m.status),
            Err(e) => Err(e),
        }
    }

    /// One member's outstanding penalty total, as a decimal string.
    pub fn get_member_penalties(t: &EntityStore, address: &String) -> (r: Result<
        String,
        ContractError,
    >)
        requires
            members_unique(t.members@),
        ensures
            r is Ok <==> spec_has_member(t.members@, address@),
            r matches Ok(s) ==> s@ == dec_digits(
                t.members@[member_at(t.members@, address@)].penalties as int,
            ),
            r matches Err(e) ==> e is MemberNotFound,
    {
        match crate::state::get_member(t, address) {
            Ok(m) => Ok(u128_to_string(m.penalties)),
            Err(e) => Err(e),
        }
    }

    /// The round the tontine is currently in.
    pub fn get_current_round(t: &EntityStore) -> (r: Result<Round, ContractError>)
        requires
            t.wf(),
        ensures
            r is Ok <==> t.state.current_round > 0,
            r matches Ok(rd) ==> same_round(rd, t.rounds@[t.state.current_round - 1]),
            t.state.current_round == 0 ==> r == Result::<Round, ContractError>::Err(
                ContractError::NoActiveRound,
            ),
    {
        match crate::state::get_current_round(t) {
            Ok(rd) => Ok(copy_round(rd)),
            Err(e) => Err(e),
        }
    }

    /// One round's data.
    pub fn get_round_info(t: &EntityStore, round: u64) -> (r: Result<Round, ContractError>)
        ensures
            r is Ok <==> 1 <= round <= t.rounds@.len(),
            r matches Ok(rd) ==> same_round(rd, t.rounds@[round - 1]),
            r matches Err(e) ==> e == (ContractError::InvalidRound { round }),
    {
        match crate::state::get_round(t, round) {
            Ok(rd) => Ok(copy_round(rd)),
            Err(e) => Err(e),
        }
    }

    /// One round's deposits.
    pub fn get_round_deposits(t: &EntityStore, round: u64) -> (r: Result<
        Vec<Deposit>,
        ContractError,
    >)
        ensures
            r is Ok <==> 1 <= round <= t.rounds@.len(),
            r matches Ok(ds) ==> ds@ == t.rounds@[round - 1].deposits@,
            r matches Err(e) ==> e == (ContractError::InvalidRound { round }),
    {
        match crate::state::get_round(t, round) {
            Ok(rd) => Ok(copy_deposits(&rd.deposits)),
            Err(e) => Err(e),
        }
    }

    /// One round's state.
    pub fn get_round_state(t: &EntityStore, round: u64) -> (r: Result<RoundState, ContractError>)
        ensures
            r is Ok <==> 1 <= round <= t.rounds@.len(),
            r matches Ok(st) ==> st == t.rounds@[round - 1].state,
            r matches Err(e) ==> e == (ContractError::InvalidRound { round }),
    {
        match crate::state::get_round(t, round) {
            Ok(rd) => Ok(rd.state),
            Err(e) => Err(e),
        }
    }

    /// One round's balance, as a decimal string.
    pub fn get_round_balance(t: &EntityStore, round: u64) -> (r: Result<String, ContractError>)
        ensures
            r is Ok <==> 1 <= round <= t.rounds@.len(),
            r matches Ok(s) ==> s@ == dec_digits(t.rounds@[round - 1].balance as int),
            r matches Err(e) ==> e == (ContractError::InvalidRound { round }),
    {
        match crate::state::get_round(t, round) {
            Ok(rd) => Ok(u128_to_string(rd.balance)),
            Err(e) => Err(e),
        }
    }

    /// The protocol fees collected so far, as a decimal string.
    pub fn get_accumulated_fees(t: &EntityStore) -> (r: String)
        ensures
            r@ == dec_digits(t.accumulated_fees as int),
    {
        u128_to_string(t.accumulated_fees)
    }

    /// The current round's beneficiary.
    pub fn get_current_beneficiary(t: &EntityStore) -> (r: Result<String, ContractError>)
        requires
            t.wf(),
        ensures
            r is Ok <==> t.state.current_round > 0,
            r matches Ok(b) ==> b == t.rounds@[t.state.current_round - 1].beneficiary,
            t.state.current_round == 0 ==> r == Result::<String, ContractError>::Err(
                ContractError::NoActiveRound,
            ),
    {
        match crate::state::get_current_round(t) {
            Ok(rd) => Ok(rd.beneficiary.clone()),
            Err(e) => Err(e),
        }
    }

    /// The beneficiary of the round after the current one, or a message
    /// when there is none.
    pub fn get_next_beneficiary(t: &EntityStore) -> (r: String)
        ensures
            t.state.current_round >= t.state.total_rounds ==> r@
                == "No next beneficiary - tontine completed"@,
            t.state.current_round < t.state.total_rounds && t.state.current_round + 1
                <= t.config.beneficiaries@.len() ==> r
                == t.config.beneficiaries@[t.state.current_round as int],
            t.state.current_round < t.state.total_rounds && t.state.current_round + 1
                > t.config.beneficiaries@.len() ==> r@ == "Invalid beneficiary index"@,
    {
        if t.state.current_round >= t.state.total_rounds {
            return String::from_str("No next beneficiary - tontine completed");
        }
        let next_round = t.state.current_round + 1;
        if next_round <= t.config.beneficiaries.len() as u64 {
            t.config.beneficiaries[(next_round - 1) as usize].clone()
        } else {
            String::from_str("Invalid beneficiary index")
        }
    }

    /// The configured beneficiaries, in order.
    pub fn get_beneficiaries_list(t: &EntityStore) -> (r: Vec<String>)
        ensures
            r@ == t.config.beneficiaries@,
    {
        copy_strings(&t.config.beneficiaries)
    }

    /// Each beneficiary with the round number that pays them.
    pub fn get_beneficiary_schedule(t: &EntityStore) -> (r: Vec<(u64, String)>)
        ensures
            r@.len() == t.config.beneficiaries@.len(),
            forall|k: int|
                0 <= k < r@.len() ==> (#[trigger] r@[k]).0 == k + 1 && r@[k].1
                    == t.config.beneficiaries@[k],
    {
        let mut r: Vec<(u64, String)> = Vec::new();
        let mut i: usize = 0;
        while i < t.config.beneficiaries.len()
            invariant
                i <= t.config.beneficiaries@.len(),
                r@.len() == i,
                forall|k: int|
                    0 <= k < i ==> (#[trigger] r@[k]).0 == k + 1 && r@[k].1
                        == t.config.beneficiaries@[k],
            decreases t.config.beneficiaries@.len() - i,
        {
            r.push(((i as u64) + 1, t.config.beneficiaries[i].clone()));
            i = i + 1;
        }
        r
    }

    /// One round's deadline.
    pub fn get_round_deadline(t: &EntityStore, round: u64) -> (r: Result<u64, ContractError>)
        ensures
            r is Ok <==> 1 <= round <= t.rounds@.len(),
            r matches Ok(d) ==> d == t.rounds@[round - 1].deadline,
            r matches Err(e) ==> e == (ContractError::InvalidRound { round }),
    {
        match crate::state::get_round(t, round) {
            Ok(rd) => Ok(rd.deadline),
            Err(e) => Err(e),
        }
    }

    /// The configured time-guard duration.
    pub fn get_time_guards(t: &EntityStore) -> (r: u64)
        ensures
            r == t.config.time_guards,
    {
        t.config.time_guards
    }

    /// The configured round frequency.
    pub fn get_round_frequency(t: &EntityStore) -> (r: u64)
        ensures
            r == t.config.round_frequency,
    {
        t.config.round_frequency
    }

    /// The escrow state.
    pub fn get_escrow_state(t: &EntityStore) -> (r: EscrowStateResponse)
        ensures
            r.is_locked == t.escrow.is_locked,
            r.locked_amount@ == dec_digits(t.escrow.locked_amount as int),
            r.lock_reason == t.escrow.lock_reason,
            r.lock_timestamp == t.escrow.lock_timestamp,
    {
        EscrowStateResponse {
            is_locked: t.escrow.is_locked,
            locked_amount: u128_to_string(t.escrow.locked_amount),
            lock_reason: t.escrow.lock_reason.clone(),
            lock_timestamp: t.escrow.lock_timestamp,
        }
    }

    /// The dispute surface; no dispute records are kept yet.
    pub fn get_dispute_state(_t: &EntityStore) -> (r: DisputeStateResponse)
        ensures
            r.active_disputes@.len() == 0,
    {
        DisputeStateResponse { active_disputes: Vec::new() }
    }

    /// How many members are registered.
    pub fn get_member_count(t: &EntityStore) -> (r: u64)
        ensures
            r == t.members@.len(),
    {
        t.members.len() as u64
    }

    /// Every member, each with the balance derived from the rounds they
    /// contributed to.
    pub fn get_members(t: &EntityStore) -> (r: Vec<MemberResponse>)
        requires
            sum_round_balances(t.rounds@) <= u128::MAX,
        ensures
            r@.len() == t.members@.len(),
            forall|k: int|
                0 <= k < r@.len() ==> member_response_matches(
                    #[trigger] r@[k],
                    t.members@[k],
                    t.rounds@,
                ),
    {
        let mut r: Vec<MemberResponse> = Vec::new();
        let mut i: usize = 0;
        while i < t.members.len()
            invariant
                i <= t.members@.len(),
                r@.len() == i,
                sum_round_balances(t.rounds@) <= u128::MAX,
                forall|k: int|
                    0 <= k < i ==> member_response_matches(
                        #[trigger] r@[k],
                        t.members@[k],
                        t.rounds@,
                    ),
            decreases t.members@.len() - i,
        {
            let balance = member_round_balance(&t.rounds, &t.members[i].address);
            r.push(MemberResponse {
                address: t.members[i].address.clone(),
                status: t.members[i].status,
                balance: u128_to_string(balance),
                penalties: u128_to_string(t.members[i].penalties),
                last_contribution: t.members[i].last_contribution,
                is_late: t.members[i].is_late,
            });
            i = i + 1;
        }
        r
    }

    /// One member's derived balance, as a decimal string.
    pub fn get_member_balance(t: &EntityStore, address: &String) -> (r: Result<
        String,
        ContractError,
    >)
        requires
            members_unique(t.members@),
            sum_round_balances(t.rounds@) <= u128::MAX,
        ensures
            r is Ok <==> spec_has_member(t.members@, address@),
            r matches Ok(s) ==> s@ == dec_digits(sum_balances_for(t.rounds@, address@)),
            r matches Err(e) ==> e is MemberNotFound,
    {
        let m = match crate::state::get_member(t, address) {
            Ok(m) => m,
            Err(e) => {
                return Err(e);
            },
        };
        let balance = member_round_balance(&t.rounds, &m.address);
        Ok(u128_to_string(balance))
    }

    /// The total held over all rounds, as a decimal string.
    pub fn get_tontine_balance(t: &EntityStore) -> (r: String)
        requires
            sum_round_balances(t.rounds@) <= u128::MAX,
        ensures
            r@ == dec_digits(sum_round_balances(t.rounds@)),
    {
        u128_to_string(total_round_balance(&t.rounds))
    }

    /// The total of the unpaid penalties, as a decimal string.
    pub fn get_pending_penalties(t: &EntityStore) -> (r: String)
        requires
            sum_unpaid_penalty_amounts(t.penalties@) <= u128::MAX,
        ensures
            r@ == dec_digits(sum_unpaid_penalty_amounts(t.penalties@)),
    {
        u128_to_string(total_unpaid_penalty_amount(&t.penalties))
    }

    /// Every distribution on record, in stored order.
    pub fn get_distribution_history(t: &EntityStore) -> (r: DistributionHistoryResponse)
        ensures
            r.distributions@.len() == t.distributions@.len(),
            forall|k: int|
                0 <= k < r.distributions@.len() ==> distribution_response_matches(
                    #[trigger] r.distributions@[k],
                    t.distributions@[k],
                ),
    {
        let mut rows: Vec<DistributionResponse> = Vec::new();
        let mut i: usize = 0;
        while i < t.distributions.len()
            invariant
                i <= t.distributions@.len(),
                rows@.len() == i,
                forall|k: int|
                    0 <= k < i ==> distribution_response_matches(
                        #[trigger] rows@[k],
                        t.distributions@[k],
                    ),
            decreases t.distributions@.len() - i,
        {
            rows.push(DistributionResponse {
                round: t.distributions[i].round,
                beneficiary: t.distributions[i].beneficiary.clone(),
                amount: u128_to_string(t.distributions[i].amount),
                timestamp: t.distributions[i].timestamp,
            });
            i = i + 1;
        }
        DistributionHistoryResponse { distributions: rows }
    }

    /// Every penalty on record, in stored order.
    pub fn get_penalty_history(t: &EntityStore) -> (r: PenaltyHistoryResponse)
        ensures
            r.penalties@.len() == t.penalties@.len(),
            forall|k: int|
                0 <= k < r.penalties@.len() ==> penalty_response_matches(
                    #[trigger] r.penalties@[k],
                    t.penalties@[k],
                ),
    {
        let mut rows: Vec<PenaltyResponse> = Vec::new();
        let mut i: usize = 0;
        while i < t.penalties.len()
            invariant
                i <= t.penalties@.len(),
                rows@.len() == i,
                forall|k: int|
                    0 <= k < i ==> penalty_response_matches(#[trigger] rows@[k], t.penalties@[k]),
            decreases t.penalties@.len() - i,
        {
            rows.push(PenaltyResponse {
                member: t.penalties[i].member.clone(),
                amount: u128_to_string(t.penalties[i].amount),
                reason: t.penalties[i].reason.clone(),
                timestamp: t.penalties[i].timestamp,
                is_paid: t.penalties[i].is_paid,
            });
            i = i + 1;
        }
        PenaltyHistoryResponse { penalties: rows }
    }

    /// Every deposit of every round, in round order.
    pub fn get_deposit_history(t: &EntityStore) -> (r: DepositHistoryResponse)
        ensures
            r.deposits@.len() == all_round_deposits(t.rounds@).len(),
            forall|k: int|
                0 <= k < r.deposits@.len() ==> deposit_response_matches(
                    #[trigger] r.deposits@[k],
                    all_round_deposits(t.rounds@)[k],
                ),
    {
        let mut rows: Vec<DepositResponse> = Vec::new();
        let mut i: usize = 0;
        while i < t.rounds.len()
            invariant
                i <= t.rounds@.len(),
                rows@.len() == all_round_deposits(t.rounds@.subrange(0, i as int)).len(),
                forall|k: int|
                    0 <= k < rows@.len() ==> deposit_response_matches(
                        #[trigger] rows@[k],
                        all_round_deposits(t.rounds@.subrange(0, i as int))[k],
                    ),
            decreases t.rounds@.len() - i,
        {
            let ghost done = all_round_deposits(t.rounds@.subrange(0, i as int));
            let mut j: usize = 0;
            while j < t.rounds[i].deposits.len()
                invariant
                    0 <= i < t.rounds@.len(),
                    j <= t.rounds@[i as int].deposits@.len(),
                    done == all_round_deposits(t.rounds@.subrange(0, i as int)),
                    rows@.len() == done.len() + j,
                    forall|k: int|
                        0 <= k < done.len() ==> deposit_response_matches(
                            #[trigger] rows@[k],
                            done[k],
                        ),
                    forall|k: int|
                        0 <= k < j ==> deposit_response_matches(
                            #[trigger] rows@[done.len() + k],
                            t.rounds@[i as int].deposits@[k],
                        ),
                decreases t.rounds@[i as int].deposits@.len() - j,
            {
                rows.push(DepositResponse {
                    member: t.rounds[i].deposits[j].member.clone(),
                    amount: u128_to_string(t.rounds[i].deposits[j].amount),
                    timestamp: t.rounds[i].deposits[j].timestamp,
                    is_late: t.rounds[i].deposits[j].is_late,
                });
                j = j + 1;
            }
            proof {
                assert(t.rounds@.subrange(0, i as int + 1).drop_last() =~= t.rounds@.subrange(
                    0,
                    i as int,
                ));
                assert(t.rounds@.subrange(0, i as int + 1).last() == t.rounds@[i as int]);
                assert(all_round_deposits(t.rounds@.subrange(0, i as int + 1)) == done
                    + t.rounds@[i as int].deposits@);
                let next = all_round_deposits(t.rounds@.subrange(0, i as int + 1));
                assert forall|k: int| 0 <= k < rows@.len() implies deposit_response_matches(
                    rows@[k],
                    next[k],
                ) by {
                    if k < done.len() {
                        assert(next[k] == done[k]);
                        assert(deposit_response_matches(rows@[k], done[k]));
                    } else {
                        let k2 = k - done.len();
                        assert(next[k] == t.rounds@[i as int].deposits@[k2]);
                        assert(deposit_response_matches(
                            rows@[done.len() + k2],
                            t.rounds@[i as int].deposits@[k2],
                        ));
                    }
                }
            }
            i = i + 1;
        }
        proof {
            assert(t.rounds@.subrange(0, t.rounds@.len() as int) =~= t.rounds@);
        }
        DepositHistoryResponse { deposits: rows }
    }

    /// The lifecycle state with the derived aggregates.
    pub fn get_tontine_state(t: &EntityStore) -> (r: TontineStateResponse)
        requires
            sum_round_balances(t.rounds@) <= u128::MAX,
            sum_penalty_amounts(t.penalties@) <= u128::MAX,
        ensures
            r.current_round == t.state.current_round,
            r.total_rounds == t.state.total_rounds,
            r.total_balance@ == dec_digits(sum_round_balances(t.rounds@)),
            r.total_fees@ == dec_digits(t.accumulated_fees as int),
            r.total_penalties@ == dec_digits(sum_penalty_amounts(t.penalties@)),
            r.member_count == t.members@.len(),
            r.is_active == t.state.is_active,
            r.is_paused == t.state.is_paused,
            r.is_finished == t.state.is_finished,
    {
        TontineStateResponse {
            current_round: t.state.current_round,
            total_rounds: t.state.total_rounds,
            total_balance: u128_to_string(total_round_balance(&t.rounds)),
            total_fees: u128_to_string(t.accumulated_fees),
            total_penalties: u128_to_string(total_penalty_amount(&t.penalties)),
            member_count: t.members.len() as u64,
            is_active: t.state.is_active,
            is_paused: t.state.is_paused,
            is_finished: t.state.is_finished,
        }
    }

    /// The total held over all rounds, as a decimal string.
    pub fn get_total_contributions(t: &EntityStore) -> (r: String)
        requires
            sum_round_balances(t.rounds@) <= u128::MAX,
        ensures
            r@ == dec_digits(sum_round_balances(t.rounds@)),
    {
        u128_to_string(total_round_balance(&t.rounds))
    }

    /// The total paid out over all distributions, as a decimal string.
    pub fn get_total_distributions(t: &EntityStore) -> (r: String)
        requires
            sum_distribution_amounts(t.distributions@) <= u128::MAX,
        ensures
            r@ == dec_digits(sum_distribution_amounts(t.distributions@)),
    {
        u128_to_string(total_distribution_amount(&t.distributions))
    }

    /// The total of all penalties on record, as a decimal string.
    pub fn get_total_penalties(t: &EntityStore) -> (r: String)
        requires
            sum_penalty_amounts(t.penalties@) <= u128::MAX,
        ensures
            r@ == dec_digits(sum_penalty_amounts(t.penalties@)),
    {
        u128_to_string(total_penalty_amount(&t.penalties))
    }

    /// The aggregate statistics of the tontine.
    pub fn get_statistics(t: &EntityStore) -> (r: StatisticsResponse)
        requires
            sum_round_balances(t.rounds@) <= u128::MAX,
            sum_distribution_amounts(t.distributions@) <= u128::MAX,
            sum_penalty_amounts(t.penalties@) <= u128::MAX,
        ensures
            r.member_count == t.members@.len(),
            r.total_contributions@ == dec_digits(sum_round_balances(t.rounds@)),
            r.total_distributions@ == dec_digits(sum_distribution_amounts(t.distributions@)),
            r.total_penalties@ == dec_digits(sum_penalty_amounts(t.penalties@)),
            r.total_fees@ == dec_digits(t.accumulated_fees as int),
            r.active_rounds == count_rounds_in_state(t.rounds@, RoundState::Active),
            r.completed_rounds == count_rounds_in_state(t.rounds@, RoundState::Distributed),
    {
        StatisticsResponse {
            member_count: t.members.len() as u64,
            total_contributions: u128_to_string(total_round_balance(&t.rounds)),
            total_distributions: u128_to_string(total_distribution_amount(&t.distributions)),
            total_penalties: u128_to_string(total_penalty_amount(&t.penalties)),
            total_fees: u128_to_string(t.accumulated_fees),
            active_rounds: count_rounds(&t.rounds, RoundState::Active) as u64,
            completed_rounds: count_rounds(&t.rounds, RoundState::Distributed) as u64,
        }
    }

    /// The protocol fees collected so far, as a decimal string.
    pub fn get_total_fees(t: &EntityStore) -> (r: String)
        ensures
            r@ == dec_digits(t.accumulated_fees as int),
    {
        u128_to_string(t.accumulated_fees)
    }
}

} // verus!
