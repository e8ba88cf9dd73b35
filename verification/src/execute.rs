use vstd::prelude::*;
use vstd::string::StringExecFns;

use crate::error::ContractError;
use crate::msg::{MemberStatus, RoundState};
use crate::numeric::{dec_value, spec_parse_u128_ok, spec_parse_u64_ok};
use crate::state::{
    count_registered, lemma_member_at_unique, lemma_sum_deposits_constant,
    lemma_sum_deposits_push, member_at, member_deposited, spec_has_member,
    spec_valid_member_address, validate_member_address, Deposit, Distribution, EntityStore,
    Member, Round, TontineState,
};

verus! {

/// How many of the configured beneficiaries are currently registered
/// members, counting duplicates in the list separately.
fn count_registered_beneficiaries(beneficiaries: &Vec<String>, members: &Vec<Member>) -> (c: usize)
    ensures
        c == count_registered(beneficiaries@, members@),
{
    let mut c: usize = 0;
    let mut i: usize = 0;
    while i < beneficiaries.len()
        invariant
            i <= beneficiaries@.len(),
            c <= i,
            c == count_registered(beneficiaries@.subrange(0, i as int), members@),
        decreases beneficiaries@.len() - i,
    {
        proof {
            assert(beneficiaries@.subrange(0, i as int + 1).drop_last() =~= beneficiaries@.subrange(
                0,
                i as int,
            ));
            assert(beneficiaries@.subrange(0, i as int + 1).last() == beneficiaries@[i as int]);
        }
        match crate::state::find_member_index(members, &beneficiaries[i]) {
            Some(_) => {
                c = c + 1;
            },
            None => {},
        }
        i = i + 1;
    }
    proof {
        assert(beneficiaries@.subrange(0, beneficiaries@.len() as int) =~= beneficiaries@);
    }
    c
}

/// The position of the deposit made by `address`, if any.
fn find_deposit_index(deposits: &Vec<Deposit>, address: &String) -> (r: Option<usize>)
    ensures
        r is Some <==> member_deposited(deposits@, address@),
{
    let mut i: usize = 0;
    while i < deposits.len()
        invariant
            i <= deposits@.len(),
            forall|j: int| 0 <= j < i ==> deposits@[j].member@ != address@,
        decreases deposits@.len() - i,
    {
        if deposits[i].member == *address {
            return Some(i);
        }
        i = i + 1;
    }
    None
}

/// The display name of a member status.
pub open spec fn status_label(s: MemberStatus) -> Seq<char> {
    match s {
        MemberStatus::Active => "Active"@,
        MemberStatus::Inactive => "Inactive"@,
        MemberStatus::Suspended => "Suspended"@,
        MemberStatus::Replaced => "Replaced"@,
        MemberStatus::Excluded => "Excluded"@,
    }
}

fn status_label_str(s: MemberStatus) -> (r: String)
    ensures
        r@ == status_label(s),
{
    match s {
        MemberStatus::Active => String::from_str("Active"),
        MemberStatus::Inactive => String::from_str("Inactive"),
        MemberStatus::Suspended => String::from_str("Suspended"),
        MemberStatus::Replaced => String::from_str("Replaced"),
        MemberStatus::Excluded => String::from_str("Excluded"),
    }
}

/// What a member receives back for an accepted contribution.
#[derive(Debug, Clone, Copy, PartialEq, Eq, Structural)]
pub struct DepositReceipt {
    pub amount: u128,
    pub round: u64,
    pub is_late: bool,
}

/// What a distribution reports: the payout instruction for the funds
/// transfer primitive, and the fees retained.
#[derive(Debug, Clone, PartialEq, Eq)]
pub struct DistributionOutcome {
    pub round: u64,
    pub beneficiary: String,
    pub amount: u128,
    pub fees: u128,
    pub denom: String,
}

/// Whether some entry of `list` is the address `addr`.
pub open spec fn spec_contains_address(list: Seq<String>, addr: Seq<char>) -> bool {
    exists|i: int| 0 <= i < list.len() && list[i]@ == addr
}

fn contains_address(list: &Vec<String>, address: &String) -> (r: bool)
    ensures
        r == spec_contains_address(list@, address@),
{
    let mut i: usize = 0;
    while i < list.len()
        invariant
            i <= list@.len(),
            forall|j: int| 0 <= j < i ==> list@[j]@ != address@,
        decreases list@.len() - i,
    {
        if list[i] == *address {
            return true;
        }
        i = i + 1;
    }
    false
}

/// The tontine is running: started and not paused.
pub open spec fn tontine_open(t: EntityStore) -> bool {
    t.state.is_active && !t.state.is_paused
}

/// The round the tontine is currently in. Meaningful once the tontine has
/// started.
pub open spec fn current_round_of(t: EntityStore) -> Round {
    t.rounds@[t.state.current_round - 1]
}

/// The member record of the caller.
pub open spec fn member_of(t: EntityStore, addr: Seq<char>) -> Member {
    t.members@[member_at(t.members@, addr)]
}

/// Every check of a deposit has passed: the tontine is running, the
/// current round is open, the caller is an active registered member who
/// has not yet contributed this round and owes no penalties.
pub open spec fn deposit_checks_passed(t: EntityStore, sender: Seq<char>) -> bool {
    &&& tontine_open(t)
    &&& t.state.current_round > 0
    &&& current_round_of(t).state == RoundState::Active
    &&& spec_has_member(t.members@, sender)
    &&& member_of(t, sender).status == MemberStatus::Active
    &&& !member_deposited(current_round_of(t).deposits@, sender)
    &&& member_of(t, sender).penalties == 0
}

/// Accepting a deposit into the current round stays within the machine's
/// integer range.
pub open spec fn deposit_fits(t: EntityStore) -> bool {
    1 <= t.state.current_round <= t.rounds@.len() ==> current_round_of(t).balance
        + t.config.contribution_amount <= u128::MAX
}

/// Accruing the current round's protocol fees stays within the machine's
/// integer range.
pub open spec fn distribution_fees_fit(t: EntityStore) -> bool {
    1 <= t.state.current_round <= t.rounds@.len() ==> t.accumulated_fees + t.config.protocol_fees
        * current_round_of(t).deposits@.len() <= u128::MAX
}

/// The caller holds one of the two privileged roles: admin or arbitrator.
pub open spec fn admin_or_arbitrator(t: EntityStore, sender: Seq<char>) -> bool {
    sender == t.config.admin@ || sender == t.config.arbitrator@
}

/// Every check of a distribution has passed: the caller is authorized,
/// the tontine is running, the current round is open and its deadline has
/// passed.
pub open spec fn distribution_checks_passed(t: EntityStore, sender: Seq<char>, now: u64) -> bool {
    &&& admin_or_arbitrator(t, sender)
    &&& tontine_open(t)
    &&& t.state.current_round > 0
    &&& current_round_of(t).state == RoundState::Active
    &&& now > current_round_of(t).deadline
}

/// Everything of the store except the member records and the rounds is as
/// before.
pub open spec fn same_except_members_and_rounds(pre: EntityStore, post: EntityStore) -> bool {
    &&& post.config == pre.config
    &&& post.state == pre.state
    &&& post.escrow == pre.escrow
    &&& post.accumulated_fees == pre.accumulated_fees
    &&& post.distributions == pre.distributions
    &&& post.penalties == pre.penalties
}

/// Everything of the store except the rounds, the distribution records
/// and the accumulated fees is as before. In particular the lifecycle
/// state is untouched: a distribution does not advance the round counter.
pub open spec fn same_except_rounds_distributions_fees(pre: EntityStore, post: EntityStore) -> bool {
    &&& post.config == pre.config
    &&& post.state == pre.state
    &&& post.escrow == pre.escrow
    &&& post.members == pre.members
    &&& post.penalties == pre.penalties
}

/// Everything of the store except the member records is as before.
pub open spec fn same_except_members(pre: EntityStore, post: EntityStore) -> bool {
    &&& post.config == pre.config
    &&& post.state == pre.state
    &&& post.escrow == pre.escrow
    &&& post.accumulated_fees == pre.accumulated_fees
    &&& post.rounds == pre.rounds
    &&& post.distributions == pre.distributions
    &&& post.penalties == pre.penalties
}

/// The member record created by a registration at time `now`.
pub open spec fn fresh_member(address: String, now: u64) -> Member {
    Member {
        address,
        status: MemberStatus::Active,
        balance: 0,
        penalties: 0,
        last_contribution: None,
        is_late: false,
        registration_time: now,
    }
}

/// The handlers for the mutating commands. Each takes the store, the
/// caller's address, and where relevant the current block time, checks
/// every precondition in order, and either applies its whole effect or
/// returns the first error with the store untouched.
pub struct ExecuteHandler;

impl ExecuteHandler {
    /// Registers a new member. Admin only; the address must be well-formed
    /// and not yet registered.
    pub fn register_member(
        t: &mut EntityStore,
        now: u64,
        sender: &String,
        address: String,
    ) -> (r: Result<(), ContractError>)
        requires
            old(t).wf(),
        ensures
            final(t).wf(),
            sender@ != old(t).config.admin@ ==> *final(t) == *old(t) && (r matches Err(e)
                && e is Unauthorized),
            sender@ == old(t).config.admin@ && !spec_valid_member_address(address@) ==> *final(t)
                == *old(t) && (r matches Err(e) && e is InvalidMemberManagement),
            sender@ == old(t).config.admin@ && spec_valid_member_address(address@)
                && spec_has_member(old(t).members@, address@) ==> *final(t) == *old(t) && (
            r matches Err(e) && e matches ContractError::MemberAlreadyExists { address: a } && a@
                == address@),
            sender@ == old(t).config.admin@ && spec_valid_member_address(address@)
                && !spec_has_member(old(t).members@, address@) ==> r is Ok && same_except_members(
                *old(t),
                *final(t),
            ) && final(t).members@ == old(t).members@.push(fresh_member(address, now)),
    {
        if !(*sender == t.config.admin) {
            return Err(ContractError::Unauthorized {
                msg: String::from_str("Only admin can register members"),
            });
        }
        match validate_member_address(address.as_str()) {
            Err(e) => {
                return Err(e);
            },
            Ok(()) => {},
        }
        match crate::state::find_member_index(&t.members, &address) {
            Some(_) => {
                return Err(ContractError::MemberAlreadyExists { address });
            },
            None => {},
        }
        let member = Member {
            address,
            status: MemberStatus::Active,
            balance: 0,
            penalties: 0,
            last_contribution: None,
            is_late: false,
            registration_time: now,
        };
        t.members.push(member);
        proof {
            let pre = old(t).members@;
            let post = t.members@;
            assert forall|i: int, j: int| 0 <= i < j < post.len() implies post[i].address@
                != post[j].address@ by {
                if j < post.len() - 1 {
                    assert(pre[i].address@ != pre[j].address@);
                } else {
                    assert(post[i] == pre[i]);
                    assert(!spec_has_member(pre, post[j].address@));
                }
            }
        }
        Ok(())
    }

    /// Removes a member. Admin only; rejected while a round is in
    /// progress, when the member is absent, or when penalties are owed.
    pub fn remove_member(t: &mut EntityStore, sender: &String, address: String) -> (r: Result<
        (),
        ContractError,
    >)
        requires
            old(t).wf(),
        ensures
            final(t).wf(),
            sender@ != old(t).config.admin@ ==> *final(t) == *old(t) && (r matches Err(e)
                && e is Unauthorized),
            sender@ == old(t).config.admin@ && old(t).state.is_active && old(t).state.current_round > 0 ==> *final(t) == *old(t) && r == Err::<(), ContractError>(
                ContractError::CannotReplaceDuringActiveRound,
            ),
            sender@ == old(t).config.admin@ && !(old(t).state.is_active && old(t).state.current_round > 0) && !spec_has_member(old(t).members@, address@) ==> *final(t)
                == *old(t) && (r matches Err(e) && e matches ContractError::MemberNotFound {
                address: a,
            } && a@ == address@),
            sender@ == old(t).config.admin@ && !(old(t).state.is_active && old(t).state.current_round > 0) && spec_has_member(old(t).members@, address@) && old(t).members@[member_at(old(t).members@, address@)].penalties > 0 ==> *final(t) == *old(t)
                && r == Err::<(), ContractError>(ContractError::MemberHasPenalties),
            sender@ == old(t).config.admin@ && !(old(t).state.is_active && old(t).state.current_round > 0) && spec_has_member(old(t).members@, address@) && old(t).members@[member_at(old(t).members@, address@)].penalties == 0 ==> r is Ok
                && same_except_members(*old(t), *final(t)) && final(t).members@ == old(t).members@.remove(member_at(old(t).members@, address@)),
    {
        if !(*sender == t.config.admin) {
            return Err(ContractError::Unauthorized {
                msg: String::from_str("Only admin can remove members"),
            });
        }
        if t.state.is_active && t.state.current_round > 0 {
            return Err(ContractError::CannotReplaceDuringActiveRound);
        }
        let i = match crate::state::find_member_index(&t.members, &address) {
            Some(i) => i,
            None => {
                return Err(ContractError::MemberNotFound { address });
            },
        };
        proof {
            crate::state::lemma_member_at_unique(t.members@, address@, i as int);
        }
        if t.members[i].penalties > 0 {
            return Err(ContractError::MemberHasPenalties);
        }
        t.members.remove(i);
        proof {
            let pre = old(t).members@;
            let post = t.members@;
            assert forall|x: int, y: int| 0 <= x < y < post.len() implies post[x].address@
                != post[y].address@ by {
                let px = if x < i as int {
                    x
                } else {
                    x + 1
                };
                let py = if y < i as int {
                    y
                } else {
                    y + 1
                };
                assert(post[x] == pre[px]);
                assert(post[y] == pre[py]);
                assert(pre[px].address@ != pre[py].address@);
            }
        }
        Ok(())
    }

    /// Replaces a member with a new address. Admin only, with the same
    /// round guard as removal; the old record is kept and marked replaced,
    /// and the new member inherits the balance and contribution history
    /// with penalties reset.
    pub fn replace_member(
        t: &mut EntityStore,
        now: u64,
        sender: &String,
        old_address: String,
        new_address: String,
    ) -> (r: Result<(), ContractError>)
        requires
            old(t).wf(),
        ensures
            final(t).wf(),
            sender@ != old(t).config.admin@ ==> *final(t) == *old(t) && (r matches Err(e)
                && e is Unauthorized),
            sender@ == old(t).config.admin@ && old(t).state.is_active && old(t).state.current_round > 0 ==> *final(t) == *old(t) && r == Err::<(), ContractError>(
                ContractError::CannotReplaceDuringActiveRound,
            ),
            Self::replace_guards_passed(*old(t), sender@, old_address@, new_address@)
                && !spec_valid_member_address(old_address@) ==> *final(t) == *old(t) && (
            r matches Err(e) && e is InvalidMemberManagement),
            Self::replace_guards_passed(*old(t), sender@, old_address@, new_address@)
                && spec_valid_member_address(old_address@) && !spec_valid_member_address(
                new_address@,
            ) ==> *final(t) == *old(t) && (r matches Err(e) && e is InvalidMemberManagement),
            Self::replace_addresses_ok(*old(t), sender@, old_address@, new_address@)
                && !spec_has_member(old(t).members@, old_address@) ==> *final(t) == *old(t) && (
            r matches Err(e) && e matches ContractError::MemberNotFound { address: a } && a@
                == old_address@),
            Self::replace_addresses_ok(*old(t), sender@, old_address@, new_address@)
                && spec_has_member(old(t).members@, old_address@) && spec_has_member(
                old(t).members@,
                new_address@,
            ) ==> *final(t) == *old(t) && (r matches Err(e)
                && e matches ContractError::MemberAlreadyExists { address: a } && a@
                == new_address@),
            Self::replace_addresses_ok(*old(t), sender@, old_address@, new_address@)
                && spec_has_member(old(t).members@, old_address@) && !spec_has_member(
                old(t).members@,
                new_address@,
            ) && old(t).members@[member_at(old(t).members@, old_address@)].penalties > 0 ==> *final(t) == *old(t) && r == Err::<(), ContractError>(ContractError::MemberHasPenalties),
            Self::replace_addresses_ok(*old(t), sender@, old_address@, new_address@)
                && spec_has_member(old(t).members@, old_address@) && !spec_has_member(
                old(t).members@,
                new_address@,
            ) && old(t).members@[member_at(old(t).members@, old_address@)].penalties == 0 ==> ({
                let ai = member_at(old(t).members@, old_address@);
                let om = old(t).members@[ai];
                r is Ok && same_except_members(*old(t), *final(t)) && final(t).members@ == old(t).members@.update(
                    ai,
                    (Member { status: MemberStatus::Replaced, ..om }),
                ).push(
                    (Member {
                        address: new_address,
                        status: MemberStatus::Active,
                        balance: om.balance,
                        penalties: 0,
                        last_contribution: om.last_contribution,
                        is_late: false,
                        registration_time: now,
                    }),
                )
            }),
    {
        if !(*sender == t.config.admin) {
            return Err(ContractError::Unauthorized {
                msg: String::from_str("Only admin can replace members"),
            });
        }
        if t.state.is_active && t.state.current_round > 0 {
            return Err(ContractError::CannotReplaceDuringActiveRound);
        }
        match validate_member_address(old_address.as_str()) {
            Err(e) => {
                return Err(e);
            },
            Ok(()) => {},
        }
        match validate_member_address(new_address.as_str()) {
            Err(e) => {
                return Err(e);
            },
            Ok(()) => {},
        }
        let ai = match crate::state::find_member_index(&t.members, &old_address) {
            Some(i) => i,
            None => {
                return Err(ContractError::MemberNotFound { address: old_address });
            },
        };
        proof {
            crate::state::lemma_member_at_unique(t.members@, old_address@, ai as int);
        }
        match crate::state::find_member_index(&t.members, &new_address) {
            Some(_) => {
                return Err(ContractError::MemberAlreadyExists { address: new_address });
            },
            None => {},
        }
        if t.members[ai].penalties > 0 {
            return Err(ContractError::MemberHasPenalties);
        }
        let om_balance = t.members[ai].balance;
        let om_last_contribution = t.members[ai].last_contribution;
        let replaced = Member {
            address: t.members[ai].address.clone(),
            status: MemberStatus::Replaced,
            balance: t.members[ai].balance,
            penalties: t.members[ai].penalties,
            last_contribution: t.members[ai].last_contribution,
            is_late: t.members[ai].is_late,
            registration_time: t.members[ai].registration_time,
        };
        t.members.set(ai, replaced);
        let new_member = Member {
            address: new_address,
            status: MemberStatus::Active,
            balance: om_balance,
            penalties: 0,
            last_contribution: om_last_contribution,
            is_late: false,
            registration_time: now,
        };
        t.members.push(new_member);
        proof {
            let pre = old(t).members@;
            let post = t.members@;
            assert forall|x: int, y: int| 0 <= x < y < post.len() implies post[x].address@
                != post[y].address@ by {
                if y < post.len() - 1 {
                    assert(post[x].address@ == pre[x].address@);
                    assert(post[y].address@ == pre[y].address@);
                    assert(pre[x].address@ != pre[y].address@);
                } else {
                    assert(post[x].address@ == pre[x].address@);
                    assert(!spec_has_member(pre, post[y].address@));
                }
            }
        }
        Ok(())
    }

    /// Starts the tontine. Admin only; legal only before any start, and
    /// only when the first configured beneficiary is a registered member.
    /// Opens round one with the first beneficiary and a deadline one round
    /// frequency from now.
    pub fn start_tontine(t: &mut EntityStore, now: u64, sender: &String) -> (r: Result<
        (),
        ContractError,
    >)
        requires
            old(t).wf(),
            now + old(t).config.round_frequency <= u64::MAX,
        ensures
            final(t).wf(),
            sender@ != old(t).config.admin@ ==> *final(t) == *old(t) && (r matches Err(e)
                && e is Unauthorized),
            sender@ == old(t).config.admin@ && old(t).state.is_active ==> *final(t) == *old(t) && r
                == Err::<(), ContractError>(ContractError::TontineAlreadyStarted),
            sender@ == old(t).config.admin@ && !old(t).state.is_active && old(t).state.is_finished ==> *final(t) == *old(t) && r == Err::<(), ContractError>(
                ContractError::TontineAlreadyFinished,
            ),
            Self::start_guards_passed(*old(t), sender@) && count_registered(
                old(t).config.beneficiaries@,
                old(t).members@,
            ) == 0 ==> *final(t) == *old(t) && (r matches Err(e)
                && e matches ContractError::InvalidMemberManagement { msg } && msg@
                == "No members registered"@),
            Self::start_guards_passed(*old(t), sender@) && count_registered(
                old(t).config.beneficiaries@,
                old(t).members@,
            ) > 0 && !spec_has_member(old(t).members@, old(t).config.beneficiaries@[0]@) ==> *final(t) == *old(t) && (r matches Err(e) && e matches ContractError::InvalidMemberManagement {
                msg,
            } && msg@ == "First beneficiary is not registered as a member"@),
            Self::start_guards_passed(*old(t), sender@) && count_registered(
                old(t).config.beneficiaries@,
                old(t).members@,
            ) > 0 && spec_has_member(old(t).members@, old(t).config.beneficiaries@[0]@) ==> ({
                let post = *final(t);
                &&& r is Ok
                &&& Self::same_except_state_and_rounds(*old(t), post)
                &&& post.state.is_active
                &&& post.state.is_paused == old(t).state.is_paused
                &&& !post.state.is_finished
                &&& post.state.current_round == 1
                &&& post.state.total_rounds == count_registered(
                    old(t).config.beneficiaries@,
                    old(t).members@,
                )
                &&& post.state.start_time == Some(now)
                &&& post.state.last_round_time == old(t).state.last_round_time
                &&& post.rounds@.len() == 1
                &&& post.rounds@[0].round_number == 1
                &&& post.rounds@[0].state == RoundState::Active
                &&& post.rounds@[0].balance == 0
                &&& post.rounds@[0].beneficiary@ == old(t).config.beneficiaries@[0]@
                &&& post.rounds@[0].deadline == now + old(t).config.round_frequency
                &&& post.rounds@[0].deposits@.len() == 0
                &&& !post.rounds@[0].is_distributed
                &&& post.rounds@[0].distribution_time is None
            }),
    {
        if !(*sender == t.config.admin) {
            return Err(ContractError::Unauthorized {
                msg: String::from_str("Only admin can start tontine"),
            });
        }
        if t.state.is_active {
            return Err(ContractError::TontineAlreadyStarted);
        }
        if t.state.is_finished {
            return Err(ContractError::TontineAlreadyFinished);
        }
        let member_count = count_registered_beneficiaries(&t.config.beneficiaries, &t.members);
        if member_count == 0 {
            return Err(ContractError::InvalidMemberManagement {
                msg: String::from_str("No members registered"),
            });
        }
        match crate::state::find_member_index(&t.members, &t.config.beneficiaries[0]) {
            Some(_) => {},
            None => {
                return Err(ContractError::InvalidMemberManagement {
                    msg: String::from_str("First beneficiary is not registered as a member"),
                });
            },
        }
        t.state.is_active = true;
        t.state.start_time = Some(now);
        t.state.current_round = 1;
        t.state.total_rounds = member_count as u64;
        let first_round = Round {
            round_number: 1,
            state: RoundState::Active,
            balance: 0,
            beneficiary: t.config.beneficiaries[0].clone(),
            deadline: now + t.config.round_frequency,
            deposits: Vec::new(),
            is_distributed: false,
            distribution_time: None,
        };
        t.rounds.push(first_round);
        proof {
            let pre = *old(t);
            assert(pre.rounds@.len() == 0);
            if pre.distributions@.len() > 0 {
                assert(1 <= pre.distributions@[0].round <= pre.rounds@.len());
            }
        }
        Ok(())
    }

    /// Pauses an active, unpaused tontine. Admin only.
    pub fn pause_tontine(t: &mut EntityStore, sender: &String) -> (r: Result<(), ContractError>)
        requires
            old(t).wf(),
        ensures
            final(t).wf(),
            sender@ != old(t).config.admin@ ==> *final(t) == *old(t) && (r matches Err(e)
                && e is Unauthorized),
            sender@ == old(t).config.admin@ && !old(t).state.is_active ==> *final(t) == *old(t)
                && r == Err::<(), ContractError>(ContractError::TontineNotStarted),
            sender@ == old(t).config.admin@ && old(t).state.is_active && old(t).state.is_paused ==> *final(t) == *old(t) && (r matches Err(e)
                && e matches ContractError::InvalidStateUpdate { msg } && msg@
                == "Tontine is already paused"@),
            sender@ == old(t).config.admin@ && old(t).state.is_active && !old(t).state.is_paused ==> r is Ok && Self::same_except_state_and_rounds(*old(t), *final(t))
                && final(t).rounds == old(t).rounds && final(t).state == (TontineState {
                is_paused: true,
                ..old(t).state
            }),
    {
        if !(*sender == t.config.admin) {
            return Err(ContractError::Unauthorized {
                msg: String::from_str("Only admin can pause tontine"),
            });
        }
        if !t.state.is_active {
            return Err(ContractError::TontineNotStarted);
        }
        if t.state.is_paused {
            return Err(ContractError::InvalidStateUpdate {
                msg: String::from_str("Tontine is already paused"),
            });
        }
        t.state.is_paused = true;
        Ok(())
    }

    /// Resumes a paused tontine. Admin only.
    pub fn resume_tontine(t: &mut EntityStore, sender: &String) -> (r: Result<(), ContractError>)
        requires
            old(t).wf(),
        ensures
            final(t).wf(),
            sender@ != old(t).config.admin@ ==> *final(t) == *old(t) && (r matches Err(e)
                && e is Unauthorized),
            sender@ == old(t).config.admin@ && !old(t).state.is_paused ==> *final(t) == *old(t)
                && (r matches Err(e) && e matches ContractError::InvalidStateUpdate { msg } && msg@
                == "Tontine is not paused"@),
            sender@ == old(t).config.admin@ && old(t).state.is_paused ==> r is Ok
                && Self::same_except_state_and_rounds(*old(t), *final(t)) && final(t).rounds == old(t).rounds && final(t).state == (TontineState { is_paused: false, ..old(t).state }),
    {
        if !(*sender == t.config.admin) {
            return Err(ContractError::Unauthorized {
                msg: String::from_str("Only admin can resume tontine"),
            });
        }
        if !t.state.is_paused {
            return Err(ContractError::InvalidStateUpdate {
                msg: String::from_str("Tontine is not paused"),
            });
        }
        t.state.is_paused = false;
        Ok(())
    }

    /// Closes the tontine before its natural end. Admin only; legal while
    /// it is active. No fund reconciliation is performed here.
    pub fn close_early(t: &mut EntityStore, sender: &String, _reason: String) -> (r: Result<
        (),
        ContractError,
    >)
        requires
            old(t).wf(),
        ensures
            final(t).wf(),
            sender@ != old(t).config.admin@ ==> *final(t) == *old(t) && (r matches Err(e)
                && e is Unauthorized),
            sender@ == old(t).config.admin@ && !old(t).state.is_active ==> *final(t) == *old(t)
                && r == Err::<(), ContractError>(ContractError::TontineNotStarted),
            sender@ == old(t).config.admin@ && old(t).state.is_active ==> r is Ok
                && Self::same_except_state_and_rounds(*old(t), *final(t)) && final(t).rounds == old(t).rounds && final(t).state == (TontineState {
                is_active: false,
                is_finished: true,
                ..old(t).state
            }),
    {
        if !(*sender == t.config.admin) {
            return Err(ContractError::Unauthorized {
                msg: String::from_str("Only admin can close tontine early"),
            });
        }
        if !t.state.is_active {
            return Err(ContractError::TontineNotStarted);
        }
        if t.state.is_finished {
            return Err(ContractError::TontineAlreadyFinished);
        }
        t.state.is_active = false;
        t.state.is_finished = true;
        Ok(())
    }

    /// Finishes the tontine once every round has been held. Admin only.
    pub fn finalize_tontine(t: &mut EntityStore, sender: &String) -> (r: Result<
        (),
        ContractError,
    >)
        requires
            old(t).wf(),
        ensures
            final(t).wf(),
            sender@ != old(t).config.admin@ ==> *final(t) == *old(t) && (r matches Err(e)
                && e is Unauthorized),
            sender@ == old(t).config.admin@ && !old(t).state.is_active ==> *final(t) == *old(t)
                && r == Err::<(), ContractError>(ContractError::TontineNotStarted),
            sender@ == old(t).config.admin@ && old(t).state.is_active && old(t).state.current_round < old(t).state.total_rounds ==> *final(t) == *old(t) && (
            r matches Err(e) && e matches ContractError::InvalidStateUpdate { msg } && msg@
                == "Cannot finalize before all rounds are completed"@),
            sender@ == old(t).config.admin@ && old(t).state.is_active && old(t).state.current_round >= old(t).state.total_rounds ==> r is Ok
                && Self::same_except_state_and_rounds(*old(t), *final(t)) && final(t).rounds == old(t).rounds && final(t).state == (TontineState {
                is_active: false,
                is_finished: true,
                ..old(t).state
            }),
    {
        if !(*sender == t.config.admin) {
            return Err(ContractError::Unauthorized {
                msg: String::from_str("Only admin can finalize tontine"),
            });
        }
        if !t.state.is_active {
            return Err(ContractError::TontineNotStarted);
        }
        if t.state.current_round < t.state.total_rounds {
            return Err(ContractError::InvalidStateUpdate {
                msg: String::from_str("Cannot finalize before all rounds are completed"),
            });
        }
        t.state.is_finished = true;
        t.state.is_active = false;
        Ok(())
    }

    /// Accepts the caller's fixed contribution into the current round.
    /// Open to any active registered member without penalties who has not
    /// yet contributed this round; a deposit after the deadline is
    /// accepted but recorded as late.
    pub fn deposit_contribution(t: &mut EntityStore, now: u64, sender: &String) -> (r: Result<
        DepositReceipt,
        ContractError,
    >)
        requires
            old(t).wf(),
            deposit_fits(*old(t)),
        ensures
            final(t).wf(),
            !tontine_open(*old(t)) ==> *final(t) == *old(t) && r == Err::<DepositReceipt, ContractError>(
                ContractError::TontineNotStarted,
            ),
            tontine_open(*old(t)) && old(t).state.current_round == 0 ==> *final(t) == *old(t) && r
                == Err::<DepositReceipt, ContractError>(ContractError::NoActiveRound),
            tontine_open(*old(t)) && old(t).state.current_round > 0 && current_round_of(
                *old(t),
            ).state != RoundState::Active ==> *final(t) == *old(t) && r == Err::<DepositReceipt, ContractError>(
                ContractError::RoundNotActive,
            ),
            tontine_open(*old(t)) && old(t).state.current_round > 0 && current_round_of(
                *old(t),
            ).state == RoundState::Active && !spec_has_member(old(t).members@, sender@) ==> *final(t) == *old(t) && (r matches Err(e) && e matches ContractError::MemberNotFound {
                address: a,
            } && a@ == sender@),
            tontine_open(*old(t)) && old(t).state.current_round > 0 && current_round_of(
                *old(t),
            ).state == RoundState::Active && spec_has_member(old(t).members@, sender@) && member_of(
                *old(t),
                sender@,
            ).status != MemberStatus::Active ==> *final(t) == *old(t) && (r matches Err(e)
                && e matches ContractError::InvalidMemberState { state: s } && s@ == status_label(
                member_of(*old(t), sender@).status,
            )),
            tontine_open(*old(t)) && old(t).state.current_round > 0 && current_round_of(
                *old(t),
            ).state == RoundState::Active && spec_has_member(old(t).members@, sender@) && member_of(
                *old(t),
                sender@,
            ).status == MemberStatus::Active && member_deposited(
                current_round_of(*old(t)).deposits@,
                sender@,
            ) ==> *final(t) == *old(t) && r == Err::<DepositReceipt, ContractError>(ContractError::MemberAlreadyContributed),
            tontine_open(*old(t)) && old(t).state.current_round > 0 && current_round_of(
                *old(t),
            ).state == RoundState::Active && spec_has_member(old(t).members@, sender@) && member_of(
                *old(t),
                sender@,
            ).status == MemberStatus::Active && !member_deposited(
                current_round_of(*old(t)).deposits@,
                sender@,
            ) && member_of(*old(t), sender@).penalties > 0 ==> *final(t) == *old(t) && r == Err::<DepositReceipt, ContractError>(
                ContractError::MemberHasPenalties,
            ),
            deposit_checks_passed(*old(t), sender@) ==> ({
                let pre = *old(t);
                let post = *final(t);
                let cri = pre.state.current_round - 1;
                let prer = current_round_of(pre);
                let late = now > prer.deadline;
                let mi = member_at(pre.members@, sender@);
                &&& r == Ok::<DepositReceipt, ContractError>(
                    (DepositReceipt {
                        amount: pre.config.contribution_amount,
                        round: pre.state.current_round,
                        is_late: late,
                    }),
                )
                &&& same_except_members_and_rounds(pre, post)
                &&& post.members@ == pre.members@.update(
                    mi,
                    (Member { last_contribution: Some(now), is_late: late, ..pre.members@[mi] }),
                )
                &&& post.rounds@.len() == pre.rounds@.len()
                &&& (forall|j: int|
                    0 <= j < pre.rounds@.len() && j != cri ==> post.rounds@[j] == pre.rounds@[j])
                &&& ({
                    let rd = post.rounds@[cri];
                    &&& rd.deposits@ == prer.deposits@.push(
                        (Deposit {
                            member: *sender,
                            amount: pre.config.contribution_amount,
                            timestamp: now,
                            is_late: late,
                        }),
                    )
                    &&& rd.balance == prer.balance + pre.config.contribution_amount
                    &&& rd.round_number == prer.round_number
                    &&& rd.state == prer.state
                    &&& rd.beneficiary == prer.beneficiary
                    &&& rd.deadline == prer.deadline
                    &&& rd.is_distributed == prer.is_distributed
                    &&& rd.distribution_time == prer.distribution_time
                })
            }),
    {
        if !t.state.is_active || t.state.is_paused {
            return Err(ContractError::TontineNotStarted);
        }
        if t.state.current_round == 0 {
            return Err(ContractError::NoActiveRound);
        }
        let rounds_len = t.rounds.len();
        proof {
            assert(old(t).state.current_round <= old(t).rounds@.len());
            assert(old(t).state.current_round - 1 < rounds_len);
        }
        let ri = (t.state.current_round - 1) as usize;
        if !(t.rounds[ri].state == RoundState::Active) {
            return Err(ContractError::RoundNotActive);
        }
        let mi = match crate::state::find_member_index(&t.members, sender) {
            Some(i) => i,
            None => {
                return Err(ContractError::MemberNotFound { address: sender.clone() });
            },
        };
        proof {
            lemma_member_at_unique(t.members@, sender@, mi as int);
        }
        let mstatus = t.members[mi].status;
        if !(mstatus == MemberStatus::Active) {
            return Err(ContractError::InvalidMemberState { state: status_label_str(mstatus) });
        }
        match find_deposit_index(&t.rounds[ri].deposits, sender) {
            Some(_) => {
                return Err(ContractError::MemberAlreadyContributed);
            },
            None => {},
        }
        if t.members[mi].penalties > 0 {
            return Err(ContractError::MemberHasPenalties);
        }
        let is_late = now > t.rounds[ri].deadline;
        let amount = t.config.contribution_amount;
        let deposit = Deposit { member: sender.clone(), amount, timestamp: now, is_late };
        let mut round = t.rounds.remove(ri);
        round.deposits.push(deposit);
        round.balance = round.balance + amount;
        t.rounds.insert(ri, round);
        let updated = Member {
            address: t.members[mi].address.clone(),
            status: t.members[mi].status,
            balance: t.members[mi].balance,
            penalties: t.members[mi].penalties,
            last_contribution: Some(now),
            is_late,
            registration_time: t.members[mi].registration_time,
        };
        t.members.set(mi, updated);
        proof {
            let pre = *old(t);
            let post = *t;
            let cri = pre.state.current_round - 1;
            let prer = current_round_of(pre);
            assert(post.rounds@ =~= pre.rounds@.update(cri, post.rounds@[cri]));
            lemma_sum_deposits_push(
                prer.deposits@,
                (Deposit { member: *sender, amount: pre.config.contribution_amount, timestamp: now, is_late }),
            );
            assert forall|x: int, y: int|
                0 <= x < y < post.members@.len() implies post.members@[x].address@
                != post.members@[y].address@ by {
                assert(post.members@[x].address@ == pre.members@[x].address@);
                assert(post.members@[y].address@ == pre.members@[y].address@);
            }
            let rd = post.rounds@[cri];
            assert forall|x: int, y: int|
                0 <= x < y < rd.deposits@.len() implies rd.deposits@[x].member@
                != rd.deposits@[y].member@ by {
                if y < rd.deposits@.len() - 1 {
                    assert(prer.deposits@[x].member@ != prer.deposits@[y].member@);
                } else {
                    assert(rd.deposits@[x] == prer.deposits@[x]);
                    assert(!member_deposited(prer.deposits@, sender@));
                }
            }
        }
        Ok(DepositReceipt { amount, round: t.state.current_round, is_late })
    }

    /// Pays out the current round once its deadline has passed: the round
    /// balance less the protocol fees goes to the round's beneficiary, the
    /// fees join the running total, and the round is marked distributed.
    /// Admin or arbitrator only. The round counter is not advanced.
    pub fn distribute_to_beneficiary(t: &mut EntityStore, now: u64, sender: &String) -> (r: Result<
        DistributionOutcome,
        ContractError,
    >)
        requires
            old(t).wf(),
            distribution_fees_fit(*old(t)),
        ensures
            final(t).wf(),
            !admin_or_arbitrator(*old(t), sender@) ==> *final(t) == *old(t) && (r matches Err(e)
                && e is Unauthorized),
            admin_or_arbitrator(*old(t), sender@) && !tontine_open(*old(t)) ==> *final(t) == *old(t)
                && r == Err::<DistributionOutcome, ContractError>(ContractError::TontineNotStarted),
            admin_or_arbitrator(*old(t), sender@) && tontine_open(*old(t)) && old(t).state.current_round == 0 ==> *final(t) == *old(t) && r == Err::<DistributionOutcome, ContractError>(
                ContractError::NoActiveRound,
            ),
            admin_or_arbitrator(*old(t), sender@) && tontine_open(*old(t)) && old(t).state.current_round > 0 && current_round_of(*old(t)).state != RoundState::Active
                ==> *final(t) == *old(t) && r == Err::<DistributionOutcome, ContractError>(ContractError::RoundNotActive),
            admin_or_arbitrator(*old(t), sender@) && tontine_open(*old(t)) && old(t).state.current_round > 0 && current_round_of(*old(t)).state == RoundState::Active
                && now <= current_round_of(*old(t)).deadline ==> *final(t) == *old(t) && r == Err::<DistributionOutcome, ContractError>(
                ContractError::RoundDeadlineNotReached,
            ),
            distribution_checks_passed(*old(t), sender@, now) ==> ({
                let pre = *old(t);
                let post = *final(t);
                let cri = pre.state.current_round - 1;
                let prer = current_round_of(pre);
                let n = prer.deposits@.len();
                let fees = pre.config.protocol_fees * n;
                let amount = prer.balance - fees;
                &&& amount == n * pre.config.contribution_amount - fees
                &&& (r matches Ok(o) && o.round == pre.state.current_round && o.beneficiary
                    == prer.beneficiary && o.amount == amount && o.fees == fees && o.denom
                    == pre.config.token_denom)
                &&& same_except_rounds_distributions_fees(pre, post)
                &&& post.accumulated_fees == pre.accumulated_fees + fees
                &&& post.distributions@ == pre.distributions@.push(
                    (Distribution {
                        round: pre.state.current_round,
                        beneficiary: prer.beneficiary,
                        amount: (prer.balance - fees) as u128,
                        timestamp: now,
                    }),
                )
                &&& post.rounds@.len() == pre.rounds@.len()
                &&& (forall|j: int|
                    0 <= j < pre.rounds@.len() && j != cri ==> post.rounds@[j] == pre.rounds@[j])
                &&& ({
                    let rd = post.rounds@[cri];
                    &&& rd.state == RoundState::Distributed
                    &&& rd.is_distributed
                    &&& rd.distribution_time == Some(now)
                    &&& rd.round_number == prer.round_number
                    &&& rd.balance == prer.balance
                    &&& rd.beneficiary == prer.beneficiary
                    &&& rd.deadline == prer.deadline
                    &&& rd.deposits == prer.deposits
                })
            }),
    {
        if !(*sender == t.config.admin) && !(*sender == t.config.arbitrator) {
            return Err(ContractError::Unauthorized {
                msg: String::from_str("Only admin or arbitrator can distribute"),
            });
        }
        if !t.state.is_active || t.state.is_paused {
            return Err(ContractError::TontineNotStarted);
        }
        if t.state.current_round == 0 {
            return Err(ContractError::NoActiveRound);
        }
        let rounds_len = t.rounds.len();
        proof {
            assert(old(t).state.current_round <= old(t).rounds@.len());
            assert(old(t).state.current_round - 1 < rounds_len);
        }
        let ri = (t.state.current_round - 1) as usize;
        if !(t.rounds[ri].state == RoundState::Active) {
            return Err(ContractError::RoundNotActive);
        }
        if now <= t.rounds[ri].deadline {
            return Err(ContractError::RoundDeadlineNotReached);
        }
        if t.rounds[ri].is_distributed {
            return Err(ContractError::InvalidDistribution {
                msg: String::from_str("Round already distributed"),
            });
        }
        let n = t.rounds[ri].deposits.len();
        proof {
            let prer = current_round_of(*old(t));
            lemma_sum_deposits_constant(prer.deposits@, old(t).config.contribution_amount as int);
            let pf = old(t).config.protocol_fees;
            let ca = old(t).config.contribution_amount;
            let dn = prer.deposits@.len();
            assert(pf * dn <= ca * dn) by (nonlinear_arith)
                requires
                    pf <= ca,
                    dn >= 0,
            ;
        }
        let total_fees = t.config.protocol_fees * (n as u128);
        let distribution_amount = match t.rounds[ri].balance.checked_sub(total_fees) {
            Some(a) => a,
            None => {
                return Err(ContractError::InvalidDistribution {
                    msg: String::from_str("Protocol fees exceed the round balance"),
                });
            },
        };
        let mut round = t.rounds.remove(ri);
        round.state = RoundState::Distributed;
        round.is_distributed = true;
        round.distribution_time = Some(now);
        let beneficiary = round.beneficiary.clone();
        t.rounds.insert(ri, round);
        let record = Distribution {
            round: t.state.current_round,
            beneficiary: beneficiary.clone(),
            amount: distribution_amount,
            timestamp: now,
        };
        t.distributions.push(record);
        t.accumulated_fees = t.accumulated_fees + total_fees;
        proof {
            let pre = *old(t);
            let post = *t;
            let cri = pre.state.current_round - 1;
            let prer = current_round_of(pre);
            assert(post.rounds@ =~= pre.rounds@.update(cri, post.rounds@[cri]));
            assert forall|i: int|
                0 <= i < pre.distributions@.len() implies pre.distributions@[i].round != pre.state.current_round by {
                assert(pre.rounds@[pre.distributions@[i].round - 1].is_distributed);
            }
            assert forall|x: int, y: int|
                0 <= x < y < post.distributions@.len() implies post.distributions@[x].round
                != post.distributions@[y].round by {
                if y < post.distributions@.len() - 1 {
                    assert(pre.distributions@[x].round != pre.distributions@[y].round);
                } else {
                    assert(post.distributions@[x] == pre.distributions@[x]);
                }
            }
            assert forall|i: int|
                0 <= i < post.distributions@.len() implies 1 <= (
                #[trigger] post.distributions@[i]).round <= post.rounds@.len()
                && post.rounds@[post.distributions@[i].round - 1].is_distributed by {
                if i < post.distributions@.len() - 1 {
                    assert(pre.rounds@[pre.distributions@[i].round - 1].is_distributed);
                }
            }
        }
        Ok(DistributionOutcome {
            round: t.state.current_round,
            beneficiary,
            amount: distribution_amount,
            fees: total_fees,
            denom: t.config.token_denom.clone(),
        })
    }

    /// Validates an advance-payment request: the beneficiary must be
    /// configured and the discount a percentage. The payment itself is not
    /// yet applied; the store is left untouched.
    pub fn advance_payment(
        t: &mut EntityStore,
        sender: &String,
        beneficiary: String,
        discount: String,
    ) -> (r: Result<(), ContractError>)
        requires
            old(t).wf(),
        ensures
            final(t).wf(),
            *final(t) == *old(t),
            sender@ != old(t).config.admin@ ==> (r matches Err(e) && e is Unauthorized),
            sender@ == old(t).config.admin@ && !spec_contains_address(
                old(t).config.beneficiaries@,
                beneficiary@,
            ) ==> (r matches Err(e) && e matches ContractError::InvalidMemberManagement { msg }
                && msg@ == "Beneficiary not in beneficiaries list"@),
            sender@ == old(t).config.admin@ && spec_contains_address(
                old(t).config.beneficiaries@,
                beneficiary@,
            ) && !spec_parse_u64_ok(discount@) ==> (r matches Err(e)
                && e matches ContractError::InvalidAmount { msg } && msg@
                == "Invalid discount format"@),
            sender@ == old(t).config.admin@ && spec_contains_address(
                old(t).config.beneficiaries@,
                beneficiary@,
            ) && spec_parse_u64_ok(discount@) && dec_value(discount@) > 100 ==> (r matches Err(e)
                && e matches ContractError::InvalidAmount { msg } && msg@
                == "Discount cannot exceed 100%"@),
            sender@ == old(t).config.admin@ && spec_contains_address(
                old(t).config.beneficiaries@,
                beneficiary@,
            ) && spec_parse_u64_ok(discount@) && dec_value(discount@) <= 100 ==> r is Ok,
    {
        if !(*sender == t.config.admin) {
            return Err(ContractError::Unauthorized {
                msg: String::from_str("Only admin can make advance payments"),
            });
        }
        if !contains_address(&t.config.beneficiaries, &beneficiary) {
            return Err(ContractError::InvalidMemberManagement {
                msg: String::from_str("Beneficiary not in beneficiaries list"),
            });
        }
        let discount_percent = match crate::numeric::parse_u64(discount.as_str()) {
            Some(v) => v,
            None => {
                return Err(ContractError::InvalidAmount {
                    msg: String::from_str("Invalid discount format"),
                });
            },
        };
        if discount_percent > 100 {
            return Err(ContractError::InvalidAmount {
                msg: String::from_str("Discount cannot exceed 100%"),
            });
        }
        Ok(())
    }

    /// Validates a late declaration: caller and member existence only.
    /// No lateness is recorded yet; the store is left untouched.
    pub fn declare_late(t: &mut EntityStore, sender: &String, member: String) -> (r: Result<
        (),
        ContractError,
    >)
        requires
            old(t).wf(),
        ensures
            final(t).wf(),
            *final(t) == *old(t),
            !admin_or_arbitrator(*old(t), sender@) ==> (r matches Err(e) && e is Unauthorized),
            admin_or_arbitrator(*old(t), sender@) && !spec_has_member(old(t).members@, member@)
                ==> (r matches Err(e) && e matches ContractError::MemberNotFound { address: a }
                && a@ == member@),
            admin_or_arbitrator(*old(t), sender@) && spec_has_member(old(t).members@, member@)
                ==> r is Ok,
    {
        if !(*sender == t.config.admin) && !(*sender == t.config.arbitrator) {
            return Err(ContractError::Unauthorized {
                msg: String::from_str("Only admin or arbitrator can declare members late"),
            });
        }
        match crate::state::find_member_index(&t.members, &member) {
            Some(_) => {},
            None => {
                return Err(ContractError::MemberNotFound { address: member });
            },
        }
        Ok(())
    }

    /// Validates a penalty application: caller, member existence, and the
    /// amount format. No penalty record is created yet; the store is left
    /// untouched.
    pub fn apply_penalty(
        t: &mut EntityStore,
        sender: &String,
        member: String,
        amount: String,
    ) -> (r: Result<(), ContractError>)
        requires
            old(t).wf(),
        ensures
            final(t).wf(),
            *final(t) == *old(t),
            !admin_or_arbitrator(*old(t), sender@) ==> (r matches Err(e) && e is Unauthorized),
            admin_or_arbitrator(*old(t), sender@) && !spec_has_member(old(t).members@, member@)
                ==> (r matches Err(e) && e matches ContractError::MemberNotFound { address: a }
                && a@ == member@),
            admin_or_arbitrator(*old(t), sender@) && spec_has_member(old(t).members@, member@)
                && !spec_parse_u128_ok(amount@) ==> (r matches Err(e) && e is InvalidAmount),
            admin_or_arbitrator(*old(t), sender@) && spec_has_member(old(t).members@, member@)
                && spec_parse_u128_ok(amount@) ==> r is Ok,
    {
        if !(*sender == t.config.admin) && !(*sender == t.config.arbitrator) {
            return Err(ContractError::Unauthorized {
                msg: String::from_str("Only admin or arbitrator can apply penalties"),
            });
        }
        match crate::state::find_member_index(&t.members, &member) {
            Some(_) => {},
            None => {
                return Err(ContractError::MemberNotFound { address: member });
            },
        }
        match crate::state::validate_amount(amount.as_str()) {
            Ok(_) => {},
            Err(e) => {
                return Err(e);
            },
        }
        Ok(())
    }

    /// Validates a penalty payment: only the member themselves may pay,
    /// and they must exist. No penalty is cleared yet; the store is left
    /// untouched.
    pub fn pay_penalty(t: &mut EntityStore, sender: &String, member: String) -> (r: Result<
        (),
        ContractError,
    >)
        requires
            old(t).wf(),
        ensures
            final(t).wf(),
            *final(t) == *old(t),
            sender@ != member@ ==> (r matches Err(e) && e is Unauthorized),
            sender@ == member@ && !spec_has_member(old(t).members@, member@) ==> (r matches Err(e)
                && e matches ContractError::MemberNotFound { address: a } && a@ == member@),
            sender@ == member@ && spec_has_member(old(t).members@, member@) ==> r is Ok,
    {
        if !(*sender == member) {
            return Err(ContractError::Unauthorized {
                msg: String::from_str("Only the member can pay their own penalty"),
            });
        }
        match crate::state::find_member_index(&t.members, &member) {
            Some(_) => {},
            None => {
                return Err(ContractError::MemberNotFound { address: member });
            },
        }
        Ok(())
    }

    /// Validates a fee withdrawal: admin only. No funds move yet; the
    /// store is left untouched.
    pub fn withdraw_fees(t: &mut EntityStore, sender: &String) -> (r: Result<(), ContractError>)
        requires
            old(t).wf(),
        ensures
            final(t).wf(),
            *final(t) == *old(t),
            sender@ != old(t).config.admin@ ==> (r matches Err(e) && e is Unauthorized),
            sender@ == old(t).config.admin@ ==> r is Ok,
    {
        if !(*sender == t.config.admin) {
            return Err(ContractError::Unauthorized {
                msg: String::from_str("Only admin can withdraw fees"),
            });
        }
        Ok(())
    }

    /// Validates a protocol-fee collection: admin only. No funds move
    /// yet; the store is left untouched.
    pub fn collect_protocol_fees(t: &mut EntityStore, sender: &String) -> (r: Result<
        (),
        ContractError,
    >)
        requires
            old(t).wf(),
        ensures
            final(t).wf(),
            *final(t) == *old(t),
            sender@ != old(t).config.admin@ ==> (r matches Err(e) && e is Unauthorized),
            sender@ == old(t).config.admin@ ==> r is Ok,
    {
        if !(*sender == t.config.admin) {
            return Err(ContractError::Unauthorized {
                msg: String::from_str("Only admin can collect protocol fees"),
            });
        }
        Ok(())
    }

    /// Validates a dispute resolution: admin only, and the member must
    /// exist. No dispute record changes yet; the store is left untouched.
    pub fn resolve_dispute(
        t: &mut EntityStore,
        sender: &String,
        member: String,
        _resolution: String,
    ) -> (r: Result<(), ContractError>)
        requires
            old(t).wf(),
        ensures
            final(t).wf(),
            *final(t) == *old(t),
            sender@ != old(t).config.admin@ ==> (r matches Err(e) && e is Unauthorized),
            sender@ == old(t).config.admin@ && !spec_has_member(old(t).members@, member@) ==> (
            r matches Err(e) && e matches ContractError::MemberNotFound { address: a } && a@
                == member@),
            sender@ == old(t).config.admin@ && spec_has_member(old(t).members@, member@)
                ==> r is Ok,
    {
        if !(*sender == t.config.admin) {
            return Err(ContractError::Unauthorized {
                msg: String::from_str("Only admin can resolve disputes"),
            });
        }
        match crate::state::find_member_index(&t.members, &member) {
            Some(_) => {},
            None => {
                return Err(ContractError::MemberNotFound { address: member });
            },
        }
        Ok(())
    }

    /// Validates an arbitration: arbitrator only, and the member must
    /// exist. No dispute record changes yet; the store is left untouched.
    pub fn arbitrate_dispute(
        t: &mut EntityStore,
        sender: &String,
        member: String,
        _decision: String,
    ) -> (r: Result<(), ContractError>)
        requires
            old(t).wf(),
        ensures
            final(t).wf(),
            *final(t) == *old(t),
            sender@ != old(t).config.arbitrator@ ==> (r matches Err(e) && e is Unauthorized),
            sender@ == old(t).config.arbitrator@ && !spec_has_member(old(t).members@, member@)
                ==> (r matches Err(e) && e matches ContractError::MemberNotFound { address: a }
                && a@ == member@),
            sender@ == old(t).config.arbitrator@ && spec_has_member(old(t).members@, member@)
                ==> r is Ok,
    {
        if !(*sender == t.config.arbitrator) {
            return Err(ContractError::Unauthorized {
                msg: String::from_str("Only arbitrator can arbitrate disputes"),
            });
        }
        match crate::state::find_member_index(&t.members, &member) {
            Some(_) => {},
            None => {
                return Err(ContractError::MemberNotFound { address: member });
            },
        }
        Ok(())
    }

    /// Validates a migration request: admin only. The store is left
    /// untouched.
    pub fn migrate(t: &mut EntityStore, sender: &String, _new_code_id: u64) -> (r: Result<
        (),
        ContractError,
    >)
        requires
            old(t).wf(),
        ensures
            final(t).wf(),
            *final(t) == *old(t),
            sender@ != old(t).config.admin@ ==> (r matches Err(e) && e is Unauthorized),
            sender@ == old(t).config.admin@ ==> r is Ok,
    {
        if !(*sender == t.config.admin) {
            return Err(ContractError::Unauthorized {
                msg: String::from_str("Only admin can migrate contract"),
            });
        }
        Ok(())
    }

    /// The admin check and both lifecycle checks of a start have passed.
    pub open spec fn start_guards_passed(pre: EntityStore, sender: Seq<char>) -> bool {
        sender == pre.config.admin@ && !pre.state.is_active && !pre.state.is_finished
    }

    /// Everything of the store except the lifecycle state and the rounds
    /// is as before.
    pub open spec fn same_except_state_and_rounds(pre: EntityStore, post: EntityStore) -> bool {
        &&& post.config == pre.config
        &&& post.escrow == pre.escrow
        &&& post.accumulated_fees == pre.accumulated_fees
        &&& post.members == pre.members
        &&& post.distributions == pre.distributions
        &&& post.penalties == pre.penalties
    }

    /// The admin and round guards of a replacement have passed.
    pub open spec fn replace_guards_passed(
        pre: EntityStore,
        sender: Seq<char>,
        old_address: Seq<char>,
        new_address: Seq<char>,
    ) -> bool {
        sender == pre.config.admin@ && !(pre.state.is_active && pre.state.current_round > 0)
    }

    /// The guards and both address checks of a replacement have passed.
    pub open spec fn replace_addresses_ok(
        pre: EntityStore,
        sender: Seq<char>,
        old_address: Seq<char>,
        new_address: Seq<char>,
    ) -> bool {
        &&& Self::replace_guards_passed(pre, sender, old_address, new_address)
        &&& spec_valid_member_address(old_address)
        &&& spec_valid_member_address(new_address)
    }
}

} // verus!
