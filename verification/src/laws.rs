use vstd::prelude::*;

use crate::execute::{
    current_round_of, deposit_checks_passed, distribution_checks_passed,
    same_except_members_and_rounds, same_except_rounds_distributions_fees,
};
use crate::msg::RoundState;
use crate::state::{
    count_registered, count_with_address, lemma_member_address_at_most_once, member_deposited,
    spec_has_member, sum_deposits, Deposit, EntityStore, Member,
};

verus! {

proof fn lemma_count_registered_nonneg(beneficiaries: Seq<String>, members: Seq<Member>)
    ensures
        count_registered(beneficiaries, members) >= 0,
    decreases beneficiaries.len(),
{
    if beneficiaries.len() > 0 {
        lemma_count_registered_nonneg(beneficiaries.drop_last(), members);
    }
}

/// A start attempt is rejected only over the first beneficiary: when the
/// first configured beneficiary is a registered member, the count of
/// registered beneficiaries is positive, so of the two rejection
/// conditions of `start_tontine` neither can fire.
pub proof fn lemma_start_accepts_when_first_registered(
    beneficiaries: Seq<String>,
    members: Seq<Member>,
)
    requires
        beneficiaries.len() > 0,
        spec_has_member(members, beneficiaries[0]@),
    ensures
        count_registered(beneficiaries, members) > 0,
    decreases beneficiaries.len(),
{
    if beneficiaries.len() == 1 {
        assert(beneficiaries.last() == beneficiaries[0]);
        assert(count_registered(beneficiaries.drop_last(), members) == 0);
    } else {
        assert(beneficiaries.drop_last()[0] == beneficiaries[0]);
        lemma_start_accepts_when_first_registered(beneficiaries.drop_last(), members);
        lemma_count_registered_nonneg(beneficiaries, members);
    }
}

/// However members were registered, removed or replaced, an address is
/// carried by at most one member record: every operation preserves the
/// store's invariant, and under it no two records share an address.
pub proof fn lemma_member_registered_at_most_once(t: EntityStore, addr: Seq<char>)
    requires
        t.wf(),
    ensures
        count_with_address(t.members@, addr) <= 1,
{
    lemma_member_address_at_most_once(t.members@, addr);
}

/// A round's balance is exactly the sum of the deposits it holds: the
/// store's invariant carries this for every round, after every accepted
/// operation.
pub proof fn lemma_round_balance_is_deposit_sum(t: EntityStore, i: int)
    requires
        t.wf(),
        0 <= i < t.rounds@.len(),
    ensures
        t.rounds@[i].balance == sum_deposits(t.rounds@[i].deposits@),
{
}

/// A deposit cannot be made twice in the same round. After an accepted
/// deposit by `sender` — `post` holding what `deposit_contribution`'s
/// contract states of the new store — the sender counts as having
/// contributed to the current round, so a second deposit attempt meets
/// the rejection guard of `deposit_contribution` and, by its contract,
/// returns `MemberAlreadyContributed` with the store (and so every round
/// balance) unchanged.
pub proof fn lemma_deposit_not_repeatable(
    pre: EntityStore,
    post: EntityStore,
    sender: Seq<char>,
    d: Deposit,
)
    requires
        pre.wf(),
        deposit_checks_passed(pre, sender),
        same_except_members_and_rounds(pre, post),
        post.rounds@.len() == pre.rounds@.len(),
        d.member@ == sender,
        post.rounds@[pre.state.current_round - 1].deposits@ == current_round_of(
            pre,
        ).deposits@.push(d),
    ensures
        member_deposited(current_round_of(post).deposits@, sender),
        !deposit_checks_passed(post, sender),
{
    let ds = current_round_of(post).deposits@;
    assert(ds[ds.len() - 1] == d);
    assert(member_deposited(ds, sender));
}

/// A round cannot be distributed twice. After an accepted distribution —
/// `post` holding what `distribute_to_beneficiary`'s contract states of
/// the new store — the current round is no longer active, so any further
/// distribution attempt, by any caller at any time, meets the rejection
/// guard of `distribute_to_beneficiary` and, by its contract, returns
/// `RoundNotActive` with the store unchanged: no second distribution
/// record and no second fee accrual.
pub proof fn lemma_distribution_not_repeatable(
    pre: EntityStore,
    post: EntityStore,
    sender: Seq<char>,
    now: u64,
)
    requires
        pre.wf(),
        distribution_checks_passed(pre, sender, now),
        same_except_rounds_distributions_fees(pre, post),
        post.rounds@.len() == pre.rounds@.len(),
        post.rounds@[pre.state.current_round - 1].state == RoundState::Distributed,
    ensures
        current_round_of(post).state != RoundState::Active,
        forall|sender2: Seq<char>, now2: u64| !distribution_checks_passed(post, sender2, now2),
{
}

} // verus!
