use vstd::prelude::*;
use vstd::string::{StrSliceExecFns, StringExecFns};

use crate::error::ContractError;
use crate::msg::{MemberStatus, RoundState, DisputeStatus};
use crate::numeric::{dec_value, parse_u128, spec_parse_u128_ok};

verus! {

/// The immutable configuration of a tontine. Amounts are integer token
/// quantities; durations are in seconds.
#[derive(Debug, Clone, PartialEq, Eq)]
pub struct Config {
    pub admin: String,
    pub token_denom: String,
    pub contribution_amount: u128,
    pub round_frequency: u64,
    pub beneficiaries: Vec<String>,
    pub late_penalty: u128,
    pub protocol_fees: u128,
    pub arbitrator: String,
    pub time_guards: u64,
}

/// The lifecycle of the group as a whole. `current_round` is zero until the
/// tontine starts.
#[derive(Debug, Clone, PartialEq, Eq)]
pub struct TontineState {
    pub is_active: bool,
    pub is_paused: bool,
    pub is_finished: bool,
    pub current_round: u64,
    pub total_rounds: u64,
    pub start_time: Option<u64>,
    pub last_round_time: Option<u64>,
}

/// One registered member, keyed by address.
#[derive(Debug, Clone, PartialEq, Eq)]
pub struct Member {
    pub address: String,
    pub status: MemberStatus,
    pub balance: u128,
    pub penalties: u128,
    pub last_contribution: Option<u64>,
    pub is_late: bool,
    pub registration_time: u64,
}

/// One contribution-and-payout cycle.
#[derive(Debug, Clone, PartialEq, Eq)]
pub struct Round {
    pub round_number: u64,
    pub state: RoundState,
    pub balance: u128,
    pub beneficiary: String,
    pub deadline: u64,
    pub deposits: Vec<Deposit>,
    pub is_distributed: bool,
    pub distribution_time: Option<u64>,
}

/// One accepted contribution; appended to its round, never changed.
#[derive(Debug, Clone, PartialEq, Eq)]
pub struct Deposit {
    pub member: String,
    pub amount: u128,
    pub timestamp: u64,
    pub is_late: bool,
}

/// One penalty levied against a member.
#[derive(Debug, Clone, PartialEq, Eq)]
pub struct Penalty {
    pub member: String,
    pub amount: u128,
    pub reason: String,
    pub timestamp: u64,
    pub is_paid: bool,
    pub payment_time: Option<u64>,
}

/// The payout record of one distributed round, keyed by round number.
#[derive(Debug, Clone, PartialEq, Eq)]
pub struct Distribution {
    pub round: u64,
    pub beneficiary: String,
    pub amount: u128,
    pub timestamp: u64,
}

/// One dispute raised by or against a member.
#[derive(Debug, Clone, PartialEq, Eq)]
pub struct Dispute {
    pub member: String,
    pub reason: String,
    pub timestamp: u64,
    pub status: DisputeStatus,
    pub resolution: Option<String>,
    pub resolution_time: Option<u64>,
}

/// A lock over funds pending dispute resolution.
#[derive(Debug, Clone, PartialEq, Eq)]
pub struct EscrowState {
    pub is_locked: bool,
    pub locked_amount: u128,
    pub lock_reason: String,
    pub lock_timestamp: Option<u64>,
}

/// Every record the engine persists, held as one value. Each operation
/// loads what it needs from here, decides, and writes back, so a call
/// either applies completely or leaves the store untouched.
#[derive(Debug, Clone, PartialEq, Eq)]
pub struct EntityStore {
    pub config: Config,
    pub state: TontineState,
    pub escrow: EscrowState,
    pub accumulated_fees: u128,
    pub members: Vec<Member>,
    pub rounds: Vec<Round>,
    pub distributions: Vec<Distribution>,
    pub penalties: Vec<Penalty>,
}

/// Whether some member in `members` has address `addr`.
pub open spec fn spec_has_member(members: Seq<Member>, addr: Seq<char>) -> bool {
    exists|i: int| 0 <= i < members.len() && members[i].address@ == addr
}

/// The index of the member with address `addr`, when there is exactly one.
pub open spec fn member_at(members: Seq<Member>, addr: Seq<char>) -> int {
    choose|i: int| 0 <= i < members.len() && members[i].address@ == addr
}

/// No two members share an address.
pub open spec fn members_unique(members: Seq<Member>) -> bool {
    forall|i: int, j: int|
        0 <= i < j < members.len() ==> members[i].address@ != members[j].address@
}

/// How many members in `members` have address `addr`.
pub open spec fn count_with_address(members: Seq<Member>, addr: Seq<char>) -> int
    decreases members.len(),
{
    if members.len() == 0 {
        0
    } else {
        count_with_address(members.drop_last(), addr) + if members.last().address@ == addr {
            1int
        } else {
            0int
        }
    }
}

/// The total of the deposit amounts in `ds`.
pub open spec fn sum_deposits(ds: Seq<Deposit>) -> int
    decreases ds.len(),
{
    if ds.len() == 0 {
        0
    } else {
        sum_deposits(ds.drop_last()) + ds.last().amount
    }
}

/// Appending a deposit grows the sum by its amount.
pub proof fn lemma_sum_deposits_push(ds: Seq<Deposit>, d: Deposit)
    ensures
        sum_deposits(ds.push(d)) == sum_deposits(ds) + d.amount,
{
    assert(ds.push(d).drop_last() =~= ds);
}

/// When every deposit is for the same amount, the sum is the count times
/// that amount.
pub proof fn lemma_sum_deposits_constant(ds: Seq<Deposit>, amt: int)
    requires
        forall|i: int| 0 <= i < ds.len() ==> (#[trigger] ds[i]).amount == amt,
    ensures
        sum_deposits(ds) == ds.len() * amt,
    decreases ds.len(),
{
    if ds.len() == 0 {
    } else {
        let prefix = ds.drop_last();
        lemma_sum_deposits_constant(prefix, amt);
        assert(sum_deposits(ds) == prefix.len() * amt + amt);
        assert(prefix.len() * amt + amt == ds.len() * amt) by (nonlinear_arith)
            requires
                prefix.len() == ds.len() - 1,
        ;
    }
}

/// Whether the member with address `addr` has a deposit in `ds`.
pub open spec fn member_deposited(ds: Seq<Deposit>, addr: Seq<char>) -> bool {
    exists|i: int| 0 <= i < ds.len() && ds[i].member@ == addr
}

/// How many of the configured beneficiaries are currently registered
/// members, counted in list order.
pub open spec fn count_registered(beneficiaries: Seq<String>, members: Seq<Member>) -> int
    decreases beneficiaries.len(),
{
    if beneficiaries.len() == 0 {
        0
    } else {
        count_registered(beneficiaries.drop_last(), members) + if spec_has_member(
            members,
            beneficiaries.last()@,
        ) {
            1int
        } else {
            0int
        }
    }
}

/// The configuration consistency rules checked at creation.
pub open spec fn config_valid(c: Config) -> bool {
    &&& c.contribution_amount > 0
    &&& c.round_frequency > 0
    &&& c.beneficiaries@.len() > 0
    &&& c.late_penalty < c.contribution_amount
    &&& c.protocol_fees < c.contribution_amount
    &&& c.time_guards > 0
}

/// What always holds of a stored round: its balance is the sum of its
/// deposits, every deposit is for the fixed contribution amount, no member
/// deposited twice, and the distributed flag agrees with the round state.
pub open spec fn round_wf(r: Round, c: Config) -> bool {
    &&& r.balance == sum_deposits(r.deposits@)
    &&& forall|i: int|
        0 <= i < r.deposits@.len() ==> (#[trigger] r.deposits@[i]).amount == c.contribution_amount
    &&& forall|i: int, j: int|
        0 <= i < j < r.deposits@.len() ==> r.deposits@[i].member@ != r.deposits@[j].member@
    &&& (r.is_distributed <==> r.state == RoundState::Distributed)
}

/// What always holds of the distribution records: at most one per round,
/// and only for rounds that are marked distributed.
pub open spec fn distributions_wf(ds: Seq<Distribution>, rounds: Seq<Round>) -> bool {
    &&& forall|i: int, j: int| 0 <= i < j < ds.len() ==> ds[i].round != ds[j].round
    &&& forall|i: int|
        0 <= i < ds.len() ==> 1 <= (#[trigger] ds[i]).round <= rounds.len() && rounds[ds[i].round
            - 1].is_distributed
}

impl EntityStore {
    /// The store's invariant: established at instantiation and preserved by
    /// every operation.
    pub open spec fn wf(self) -> bool {
        &&& config_valid(self.config)
        &&& members_unique(self.members@)
        &&& self.state.current_round <= self.rounds@.len()
        &&& self.rounds@.len() <= self.state.total_rounds
        &&& forall|i: int|
            0 <= i < self.rounds@.len() ==> (#[trigger] self.rounds@[i]).round_number == i + 1
                && round_wf(self.rounds@[i], self.config)
        &&& self.state.is_finished ==> !self.state.is_active
        &&& (!self.state.is_active && !self.state.is_finished) ==> self.state.current_round == 0
            && self.rounds@.len() == 0 && self.state.total_rounds == 0
        &&& self.state.is_active ==> self.state.current_round >= 1
        &&& forall|i: int, j: int|
            0 <= i < j < self.rounds@.len() ==> !((#[trigger] self.rounds@[i]).state
                == RoundState::Active && (#[trigger] self.rounds@[j]).state == RoundState::Active)
        &&& distributions_wf(self.distributions@, self.rounds@)
        &&& self.escrow.is_locked ==> self.escrow.locked_amount > 0
    }
}

/// The initial store for a freshly created tontine: not started, nothing
/// locked, no fees, no records.
pub fn initialize_state(config: Config) -> (t: EntityStore)
    requires
        config_valid(config),
    ensures
        t.wf(),
        t.config == config,
        !t.state.is_active,
        !t.state.is_paused,
        !t.state.is_finished,
        t.state.current_round == 0,
        t.state.total_rounds == 0,
        t.state.start_time is None,
        t.state.last_round_time is None,
        !t.escrow.is_locked,
        t.escrow.locked_amount == 0,
        t.escrow.lock_reason@.len() == 0,
        t.escrow.lock_timestamp is None,
        t.accumulated_fees == 0,
        t.members@.len() == 0,
        t.rounds@.len() == 0,
        t.distributions@.len() == 0,
        t.penalties@.len() == 0,
{
    EntityStore {
        config,
        state: TontineState {
            is_active: false,
            is_paused: false,
            is_finished: false,
            current_round: 0,
            total_rounds: 0,
            start_time: None,
            last_round_time: None,
        },
        escrow: EscrowState {
            is_locked: false,
            locked_amount: 0,
            lock_reason: String::new(),
            lock_timestamp: None,
        },
        accumulated_fees: 0,
        members: Vec::new(),
        rounds: Vec::new(),
        distributions: Vec::new(),
        penalties: Vec::new(),
    }
}

/// The configuration of the store.
pub fn get_config(t: &EntityStore) -> (c: &Config)
    ensures
        *c == t.config,
{
    &t.config
}

/// The lifecycle state of the store.
pub fn get_tontine_state(t: &EntityStore) -> (s: &TontineState)
    ensures
        *s == t.state,
{
    &t.state
}

/// The escrow state of the store.
pub fn get_escrow_state(t: &EntityStore) -> (e: &EscrowState)
    ensures
        *e == t.escrow,
{
    &t.escrow
}

/// The protocol fees collected so far.
pub fn get_accumulated_fees(t: &EntityStore) -> (f: u128)
    ensures
        f == t.accumulated_fees,
{
    t.accumulated_fees
}

/// The position of the member with the given address, if any.
pub(crate) fn find_member_index(members: &Vec<Member>, address: &String) -> (r: Option<usize>)
    ensures
        r matches Some(i) ==> i < members@.len() && members@[i as int].address@ == address@,
        r is Some <==> spec_has_member(members@, address@),
{
    let mut i: usize = 0;
    while i < members.len()
        invariant
            i <= members@.len(),
            forall|j: int| 0 <= j < i ==> members@[j].address@ != address@,
        decreases members@.len() - i,
    {
        if members[i].address == *address {
            return Some(i);
        }
        i = i + 1;
    }
    None
}

/// With unique addresses, any index holding `addr` is the one `member_at`
/// denotes.
pub proof fn lemma_member_at_unique(members: Seq<Member>, addr: Seq<char>, i: int)
    requires
        members_unique(members),
        0 <= i < members.len(),
        members[i].address@ == addr,
    ensures
        spec_has_member(members, addr),
        member_at(members, addr) == i,
{
    assert(spec_has_member(members, addr));
    let j = member_at(members, addr);
    if i < j {
        assert(members[i].address@ != members[j].address@);
    } else if j < i {
        assert(members[j].address@ != members[i].address@);
    }
}

proof fn lemma_count_zero_when_absent(members: Seq<Member>, addr: Seq<char>)
    requires
        forall|i: int| 0 <= i < members.len() ==> members[i].address@ != addr,
    ensures
        count_with_address(members, addr) == 0,
    decreases members.len(),
{
    if members.len() > 0 {
        lemma_count_zero_when_absent(members.drop_last(), addr);
    }
}

/// A member address appears in the store at most once: with the invariant
/// holding, no address is carried by two member records.
pub proof fn lemma_member_address_at_most_once(members: Seq<Member>, addr: Seq<char>)
    requires
        members_unique(members),
    ensures
        count_with_address(members, addr) <= 1,
    decreases members.len(),
{
    if members.len() > 0 {
        let prefix = members.drop_last();
        assert(members_unique(prefix));
        if members.last().address@ == addr {
            assert(forall|i: int|
                0 <= i < prefix.len() ==> (#[trigger] prefix[i]).address@ != addr) by {
                assert(forall|i: int|
                    0 <= i < members.len() - 1 ==> (#[trigger] members[i]).address@
                        != members[members.len() - 1].address@);
            }
            lemma_count_zero_when_absent(prefix, addr);
        } else {
            lemma_member_address_at_most_once(prefix, addr);
        }
    }
}

/// The member with the given address. Relies on unique addresses to name
/// which record is returned.
pub fn get_member<'a>(t: &'a EntityStore, address: &String) -> (r: Result<&'a Member, ContractError>)
    requires
        members_unique(t.members@),
    ensures
        r is Ok <==> spec_has_member(t.members@, address@),
        r matches Ok(m) ==> *m == t.members@[member_at(t.members@, address@)] && m.address@
            == address@,
        r matches Err(e) ==> (e matches ContractError::MemberNotFound { address: a } && a@
            == address@),
{
    match find_member_index(&t.members, address) {
        Some(i) => {
            proof {
                lemma_member_at_unique(t.members@, address@, i as int);
            }
            Ok(&t.members[i])
        },
        None => Err(ContractError::MemberNotFound { address: address.clone() }),
    }
}

/// The round with the given number, which is its position plus one.
pub fn get_round<'a>(t: &'a EntityStore, round_number: u64) -> (r: Result<&'a Round, ContractError>)
    ensures
        r is Ok <==> 1 <= round_number <= t.rounds@.len(),
        r matches Ok(rd) ==> *rd == t.rounds@[round_number - 1],
        r matches Err(e) ==> e == (ContractError::InvalidRound { round: round_number }),
{
    if round_number >= 1 && round_number <= t.rounds.len() as u64 {
        Ok(&t.rounds[(round_number - 1) as usize])
    } else {
        Err(ContractError::InvalidRound { round: round_number })
    }
}

/// The round the tontine is currently in, if it has started.
pub fn get_current_round<'a>(t: &'a EntityStore) -> (r: Result<&'a Round, ContractError>)
    ensures
        t.state.current_round == 0 ==> r == Result::<&'a Round, ContractError>::Err(
            ContractError::NoActiveRound,
        ),
        t.state.current_round > 0 ==> (r is Ok <==> 1 <= t.state.current_round
            <= t.rounds@.len()),
        r matches Ok(rd) ==> *rd == t.rounds@[t.state.current_round - 1],
{
    if t.state.current_round == 0 {
        return Err(ContractError::NoActiveRound);
    }
    get_round(t, t.state.current_round)
}

/// The error reported for an inconsistent configuration: the first rule
/// broken, in the order the rules are checked.
pub open spec fn spec_config_error(c: Config) -> ContractError {
    if c.contribution_amount == 0 {
        ContractError::InvalidContributionAmount
    } else if c.round_frequency == 0 {
        ContractError::InvalidRoundFrequency
    } else if c.beneficiaries@.len() == 0 {
        ContractError::InvalidBeneficiariesList
    } else if c.late_penalty >= c.contribution_amount {
        ContractError::InvalidLatePenaltyAmount
    } else if c.protocol_fees >= c.contribution_amount {
        ContractError::InvalidProtocolFeesAmount
    } else {
        ContractError::InvalidTimeGuards
    }
}

/// Checks the configuration consistency rules, reporting the first broken
/// one.
pub fn validate_config(config: &Config) -> (r: Result<(), ContractError>)
    ensures
        r is Ok <==> config_valid(*config),
        !config_valid(*config) ==> r == Result::<(), ContractError>::Err(
            spec_config_error(*config),
        ),
{
    if config.contribution_amount == 0 {
        return Err(ContractError::InvalidContributionAmount);
    }
    if config.round_frequency == 0 {
        return Err(ContractError::InvalidRoundFrequency);
    }
    if config.beneficiaries.len() == 0 {
        return Err(ContractError::InvalidBeneficiariesList);
    }
    if config.late_penalty >= config.contribution_amount {
        return Err(ContractError::InvalidLatePenaltyAmount);
    }
    if config.protocol_fees >= config.contribution_amount {
        return Err(ContractError::InvalidProtocolFeesAmount);
    }
    if config.time_guards == 0 {
        return Err(ContractError::InvalidTimeGuards);
    }
    Ok(())
}

/// The shape a member address must have: non-empty, carrying the chain's
/// address tag, and of a length between twenty and fifty characters.
pub open spec fn spec_valid_member_address(s: Seq<char>) -> bool {
    &&& s.len() > 0
    &&& s.len() >= 10 && s.subrange(0, 10) == "addr_safro"@
    &&& 20 <= s.len() <= 50
}

/// Checks the shape of a member address, reporting the first broken rule.
pub fn validate_member_address(address: &str) -> (r: Result<(), ContractError>)
    ensures
        r is Ok <==> spec_valid_member_address(address@),
        r matches Err(e) ==> e is InvalidMemberManagement,
{
    let n = address.unicode_len();
    if n == 0 {
        return Err(ContractError::InvalidMemberManagement {
            msg: String::from_str("Member address cannot be empty"),
        });
    }
    proof {
        reveal_strlit("addr_safro");
    }
    let tag = "addr_safro";
    if n < 10 {
        return Err(ContractError::InvalidMemberManagement {
            msg: String::from_str("Member address must be a valid Safrochain address (addr_safro...)"),
        });
    }
    let mut i: usize = 0;
    while i < 10
        invariant
            0 <= i <= 10,
            n == address@.len(),
            n >= 10,
            tag@ == "addr_safro"@,
            tag@.len() == 10,
            forall|j: int| 0 <= j < i ==> address@[j] == tag@[j],
        decreases 10 - i,
    {
        if address.get_char(i) != tag.get_char(i) {
            proof {
                assert(address@.subrange(0, 10)[i as int] != "addr_safro"@[i as int]);
            }
            return Err(ContractError::InvalidMemberManagement {
                msg: String::from_str(
                    "Member address must be a valid Safrochain address (addr_safro...)",
                ),
            });
        }
        i = i + 1;
    }
    proof {
        assert(address@.subrange(0, 10) =~= "addr_safro"@);
    }
    if n < 20 || n > 50 {
        return Err(ContractError::InvalidMemberManagement {
            msg: String::from_str("Member address length is invalid"),
        });
    }
    Ok(())
}

/// Parses an amount string as a non-negative integer token quantity.
pub fn validate_amount(amount: &str) -> (r: Result<u128, ContractError>)
    ensures
        r is Ok <==> spec_parse_u128_ok(amount@),
        r matches Ok(v) ==> v == dec_value(amount@),
        r matches Err(e) ==> e is InvalidAmount,
{
    match parse_u128(amount) {
        Some(v) => Ok(v),
        None => Err(ContractError::InvalidAmount { msg: String::from_str("Invalid amount format") }),
    }
}

} // verus!
