//! What holds of the bounty engine whatever is called: the escrow adds up, the cherry is shared
//! in proportion, stakes are slashed by the time elapsed, and milestones only move forward.

use crate::bounty::{BountyActor, BountyCreationParameters, BountyMilestone, Error, Event, Module};
use crate::bounty::proofs::{
    lemma_announce_keeps_inv, lemma_cancel_keeps_inv, lemma_contribution_position,
    lemma_create_keeps_inv, lemma_fund_keeps_inv, lemma_share_is_held,
    lemma_withdraw_creator_funding_keeps_inv, lemma_withdraw_funding_keeps_inv,
    lemma_withdraw_work_entry_keeps_inv,
};
use crate::bounty::state::{
    contributed_to, contribution_at, funders_total, milestone_step, stage_of, stake_slash, Call,
    State,
};
use crate::common::RawOrigin;
use crate::ledger::AccountId;
use crate::sums::lemma_sum_zero;
use vstd::prelude::*;

verus! {

/// Between calls the escrow account of every bounty holds exactly what the engine still owes
/// from it: what is left of the cherry and of the creator's funding, what the funders have in
/// the bounty, the stakes of its active work entries and the stakes that were lost to it.
/// Where no member has staked it is the cherry, the creator's funding and the contributions.
pub proof fn lemma_escrow_holds_what_is_owed(module: &Module, bounty_id: u64)
    requires
        module.wf(),
        module@.bounties.contains_key(bounty_id),
    ensures
        module@.escrow_balance(bounty_id) == module@.bounties[bounty_id].cherry_remaining
            + module@.bounties[bounty_id].creator_funding_remaining + module@.contribution_total(
            bounty_id,
        ) + module@.staked_total(bounty_id) + module@.bounties[bounty_id].forfeited_stake,
        module@.staked_total(bounty_id) == 0 && module@.bounties[bounty_id].forfeited_stake == 0
            ==> module@.escrow_balance(bounty_id) == module@.bounties[bounty_id].cherry_remaining
            + module@.bounties[bounty_id].creator_funding_remaining + module@.contribution_total(
            bounty_id,
        ),
{
    module.lemma_wf_implies_inv();
}

/// The account of a bounty that does not exist is empty: a bounty is erased only with an empty
/// escrow, and nothing is paid into the escrow of a bounty that is not there.
pub proof fn lemma_no_bounty_no_escrow(module: &Module, bounty_id: u64)
    requires
        module.wf(),
        !module@.bounties.contains_key(bounty_id),
    ensures
        module@.escrow_balance(bounty_id) == 0,
        !module@.contributions_exist(bounty_id),
{
    module.lemma_wf_implies_inv();
    if module@.contributions_exist(bounty_id) {
        let i = choose|i: int|
            0 <= i < module@.contributions.len() && #[trigger] module@.contributions[i].bounty_id
                == bounty_id;
        assert(module@.bounties.contains_key(module@.contributions[i].bounty_id));
    }
}

/// Where what the funders have in a bounty sums to zero, no funder has a contribution in it:
/// a contribution is never empty.
pub proof fn lemma_no_empty_contributions(state: State, bounty_id: u64)
    requires
        state.inv(),
        state.contribution_total(bounty_id) == 0,
    ensures
        !state.contributions_exist(bounty_id),
{
    lemma_sum_zero(state.contributions, contributed_to(bounty_id));
    if state.contributions_exist(bounty_id) {
        let i = choose|i: int|
            0 <= i < state.contributions.len() && #[trigger] state.contributions[i].bounty_id
                == bounty_id;
        assert(contributed_to(bounty_id)(state.contributions[i]) == 0);
        assert(state.contributions[i].amount > 0);
    }
}

/// Every call keeps the invariant of the state.
pub proof fn lemma_every_call_keeps_inv(state: State, now: u64, call: Call)
    requires
        state.inv(),
        state.within_limits(),
    ensures
        state.apply(now, call).inv(),
{
    if state.outcome(now, call) is Ok {
        match call {
            Call::CreateBounty { origin, params } => {
                lemma_create_keeps_inv(state, now, origin, params);
            },
            Call::CancelBounty { origin, creator, bounty_id } => {
                lemma_cancel_keeps_inv(state, now, bounty_id);
            },
            Call::VetoBounty { origin, bounty_id } => {
                lemma_cancel_keeps_inv(state, now, bounty_id);
            },
            Call::FundBounty { origin, funder, bounty_id, amount } => {
                lemma_fund_keeps_inv(state, now, origin, funder, bounty_id, amount);
            },
            Call::WithdrawFunding { origin, funder, bounty_id } => {
                assert(state.withdraw_funding_check(now, origin, funder, bounty_id) is Ok);
                lemma_withdraw_funding_keeps_inv(state, now, origin, funder, bounty_id);
            },
            Call::WithdrawCreatorFunding { origin, creator, bounty_id } => {
                assert(state.withdraw_creator_funding_check(now, origin, creator, bounty_id)
                    is Ok);
                lemma_withdraw_creator_funding_keeps_inv(state, now, origin, creator, bounty_id);
            },
            Call::AnnounceWorkEntry { origin, member_id, staking_account_id, bounty_id } => {
                lemma_announce_keeps_inv(
                    state,
                    now,
                    origin,
                    member_id,
                    staking_account_id,
                    bounty_id,
                );
            },
            Call::WithdrawWorkEntry { origin, member_id, bounty_id, entry_id } => {
                lemma_withdraw_work_entry_keeps_inv(
                    state,
                    now,
                    origin,
                    member_id,
                    bounty_id,
                    entry_id,
                );
            },
        }
    }
}

/// No call creates or destroys money: what leaves an account enters another.
pub proof fn lemma_calls_conserve_issuance(state: State, now: u64, call: Call)
    ensures
        state.apply(now, call).total_issuance == state.total_issuance,
{
}

/// The counters only grow, and an id is given out once: a bounty that a call creates has an id
/// above the ids of all bounties before it, those that were erased among them.
pub proof fn lemma_ids_are_never_reused(state: State, now: u64, call: Call, bounty_id: u64)
    requires
        state.inv(),
        state.within_limits(),
    ensures
        state.apply(now, call).bounty_count >= state.bounty_count,
        state.apply(now, call).entry_count >= state.entry_count,
        state.apply(now, call).bounties.contains_key(bounty_id) && !state.bounties.contains_key(
            bounty_id,
        ) ==> bounty_id == state.bounty_count + 1 && state.apply(now, call).bounty_count
            == bounty_id,
{
    let after = state.apply(now, call);
    if state.outcome(now, call) is Ok {
        match call {
            Call::CreateBounty { origin, params } => {
                assert(after == state.create_bounty(now, origin, params));
            },
            Call::CancelBounty { origin, creator, bounty_id: target } => {
                assert(after == state.canceled(target));
                assert(state.bounties.contains_key(target));
            },
            Call::VetoBounty { origin, bounty_id: target } => {
                assert(after == state.canceled(target));
                assert(state.bounties.contains_key(target));
            },
            Call::FundBounty { origin, funder, bounty_id: target, amount } => {
                assert(after == state.fund_bounty(now, origin, funder, target, amount));
                assert(state.bounties.contains_key(target));
            },
            Call::WithdrawFunding { origin, funder, bounty_id: target } => {
                assert(state.withdraw_funding_check(now, origin, funder, target) is Ok);
                assert(after == state.withdraw_funding(now, origin, funder, target));
                assert(state.bounties.contains_key(target));
            },
            Call::WithdrawCreatorFunding { origin, creator, bounty_id: target } => {
                assert(state.withdraw_creator_funding_check(now, origin, creator, target) is Ok);
                assert(after == state.withdraw_creator_funding(now, origin, creator, target));
                assert(state.bounties.contains_key(target));
            },
            Call::AnnounceWorkEntry {
                origin,
                member_id,
                staking_account_id,
                bounty_id: target,
            } => {
                assert(after == state.announce_work_entry(
                    now,
                    origin,
                    member_id,
                    staking_account_id,
                    target,
                ));
                assert(state.bounties.contains_key(target));
            },
            Call::WithdrawWorkEntry { origin, member_id, bounty_id: target, entry_id } => {
                assert(after == state.withdraw_work_entry(
                    now,
                    origin,
                    member_id,
                    target,
                    entry_id,
                ));
                assert(state.bounties.contains_key(target));
            },
        }
    } else {
        assert(after == state);
    }
}

/// A call that is rejected changes nothing: every check comes before the first change.
pub proof fn lemma_rejected_call_changes_nothing(state: State, now: u64, call: Call)
    requires
        state.outcome(now, call) is Err,
    ensures
        state.apply(now, call) == state,
{
}

/// The milestone of a bounty only moves forward: from created to funded, canceled or
/// withdrawn by the creator, and from funded or canceled to withdrawn by the creator.
pub proof fn lemma_milestones_only_advance(state: State, now: u64, call: Call, bounty_id: u64)
    requires
        state.inv(),
        state.within_limits(),
        state.bounties.contains_key(bounty_id),
        state.apply(now, call).bounties.contains_key(bounty_id),
    ensures
        milestone_step(
            state.bounties[bounty_id].milestone,
            state.apply(now, call).bounties[bounty_id].milestone,
        ),
{
    let after = state.apply(now, call);
    if state.outcome(now, call) is Ok {
        match call {
            Call::CreateBounty { origin, params } => {
                assert(bounty_id != (state.bounty_count + 1) as u64);
            },
            Call::CancelBounty { origin, creator, bounty_id: target } => {
                if target == bounty_id {
                    assert(state.bounties[bounty_id].milestone is Created);
                }
            },
            Call::VetoBounty { origin, bounty_id: target } => {
                if target == bounty_id {
                    assert(state.bounties[bounty_id].milestone is Created);
                }
            },
            Call::FundBounty { origin, funder, bounty_id: target, amount } => {
                if target == bounty_id {
                    assert(state.bounties[bounty_id].milestone is Created);
                }
            },
            Call::WithdrawFunding { origin, funder, bounty_id: target } => {
                if target == bounty_id {
                    assert(state.withdraw_funding_check(now, origin, funder, target) is Ok);
                    assert(!(state.bounties[bounty_id].milestone is BountyMaxFundingReached));
                } else {
                    assert(after.bounties[bounty_id] == state.bounties[bounty_id]);
                }
            },
            Call::WithdrawCreatorFunding { origin, creator, bounty_id: target } => {
                if target == bounty_id {
                    assert(state.withdraw_creator_funding_check(now, origin, creator, target)
                        is Ok);
                } else {
                    assert(after.bounties[bounty_id] == state.bounties[bounty_id]);
                }
            },
            Call::AnnounceWorkEntry { .. } => {},
            Call::WithdrawWorkEntry { .. } => {},
        }
    }
}

/// A bounty that exists has periods that are not zero and a funding window that is not empty.
pub proof fn lemma_stored_parameters_are_valid(state: State, bounty_id: u64)
    requires
        state.inv(),
        state.bounties.contains_key(bounty_id),
    ensures
        state.bounties[bounty_id].creation_params.work_period > 0,
        state.bounties[bounty_id].creation_params.judging_period > 0,
        state.bounties[bounty_id].creation_params.min_amount
            <= state.bounties[bounty_id].creation_params.max_amount,
{
}

/// The funders are never paid more of the cherry than there is: what is left of it is never
/// more than the cherry, and never less than the share of the funder who withdraws next.
/// Once every funder has withdrawn, nothing of the cherry is left.
pub proof fn lemma_cherry_is_never_overpaid(state: State, funder: BountyActor, bounty_id: u64)
    requires
        state.inv(),
        state.bounties.contains_key(bounty_id),
    ensures
        state.bounties[bounty_id].cherry_remaining
            <= state.bounties[bounty_id].creation_params.cherry,
        funders_total(state.bounties[bounty_id]) > 0 && state.contribution_total(bounty_id) == 0
            ==> state.bounties[bounty_id].cherry_remaining == 0,
        state.has_contribution(bounty_id, funder) ==> state.cherry_for_funder(bounty_id, funder)
            <= state.bounties[bounty_id].cherry_remaining,
{
    if state.has_contribution(bounty_id, funder) {
        lemma_share_is_held(state, bounty_id, funder);
    }
}

/// The funder who withdraws while others still have contributions in the bounty is paid the
/// part of the cherry that its contribution is of all contributions, rounded down. The
/// funder who withdraws last is paid all that is left of the cherry, the remainders of the
/// roundings with it.
pub proof fn lemma_cherry_shares(
    state: State,
    now: u64,
    origin: RawOrigin,
    funder: BountyActor,
    bounty_id: u64,
)
    requires
        state.inv(),
        state.withdraw_funding_check(now, origin, funder, bounty_id) is Ok,
    ensures
        ({
            let bounty = state.bounties[bounty_id];
            let contribution = state.contribution_by_bounty_by_actor(bounty_id, funder);
            let share = state.cherry_for_funder(bounty_id, funder);
            &&& 0 < contribution <= state.contribution_total(bounty_id)
            &&& contribution < state.contribution_total(bounty_id) ==> share
                == bounty.creation_params.cherry * contribution / (funders_total(bounty) as int)
            &&& contribution == state.contribution_total(bounty_id) ==> share
                == bounty.cherry_remaining
        }),
{
    let at = state.contribution_position(bounty_id, funder);
    assert(contribution_at(state.contributions, at, bounty_id, funder));
    lemma_contribution_position(state, at, bounty_id, funder);
}

/// Withdrawing a work entry in the block it was announced in loses nothing of the stake;
/// withdrawing it when the work period is over loses all of it; withdrawing it at half of a
/// work period loses half of it, rounded down.
pub proof fn lemma_slash_follows_elapsed_time(stake: u64, elapsed: nat, work_period: u64)
    requires
        work_period > 0,
    ensures
        elapsed == 0 ==> stake_slash(stake, elapsed, work_period) == 0,
        elapsed >= work_period ==> stake_slash(stake, elapsed, work_period) == stake,
        2 * elapsed == work_period ==> stake_slash(stake, elapsed, work_period) == stake / 2,
        stake_slash(stake, elapsed, work_period) <= stake,
{
    crate::bounty::proofs::lemma_slash_within_stake(stake, elapsed, work_period);
    if elapsed == 0 {
        assert(stake * elapsed / (work_period as int) == 0) by (nonlinear_arith)
            requires
                elapsed == 0,
                work_period > 0,
        ;
    }
    if 2 * elapsed == work_period {
        assert(stake * elapsed / (work_period as int) == stake / 2) by (nonlinear_arith)
            requires
                2 * elapsed == work_period,
                elapsed > 0,
                0 <= stake,
        ;
    }
}

/// A member who withdraws a staked work entry in the block it was announced in has the whole
/// stake back; one who withdraws when the work period is over has nothing back; one who
/// withdraws at half of the work period has back the stake less half of it, rounded down.
pub proof fn lemma_refund_follows_elapsed_time(state: State, at: int, now: u64)
    requires
        state.inv(),
        0 <= at < state.entries.len(),
        state.entries[at].staking_account_id is Some,
        state.bounties.contains_key(state.entries[at].bounty_id),
    ensures
        ({
            let entry = state.entries[at];
            let work_period = state.bounties[entry.bounty_id].creation_params.work_period;
            let elapsed = crate::common::blocks_between(entry.submitted_at, now);
            &&& state.stake_refund(at, now) <= entry.staked_amount
            &&& elapsed == 0 ==> state.stake_refund(at, now) == entry.staked_amount
            &&& elapsed >= work_period ==> state.stake_refund(at, now) == 0
            &&& 2 * elapsed == work_period ==> state.stake_refund(at, now) == entry.staked_amount
                - entry.staked_amount / 2
        }),
{
    let entry = state.entries[at];
    let work_period = state.bounties[entry.bounty_id].creation_params.work_period;
    lemma_slash_follows_elapsed_time(
        entry.staked_amount,
        crate::common::blocks_between(entry.submitted_at, now),
        work_period,
    );
}

/// A funding that is accepted moves its amount from the funder's account into the escrow of
/// the bounty, and adds it to what the funder has in the bounty and to the bounty's funding.
/// It is reported as a funding by that funder of that amount, or as reaching the target where
/// it does. The escrow then holds the cherry, what the creator funded and what the funders
/// have in the bounty, and nothing else.
pub proof fn lemma_funding_moves_the_amount(
    state: State,
    now: u64,
    origin: RawOrigin,
    funder: BountyActor,
    bounty_id: u64,
    amount: u64,
)
    requires
        state.inv(),
        state.fund_bounty_result(now, origin, funder, bounty_id, amount) is Ok,
    ensures
        ({
            let funded = state.fund_bounty(now, origin, funder, bounty_id, amount);
            let payer = state.actor_account(origin, funder)->Ok_0;
            let bounty = state.bounties[bounty_id];
            let params = bounty.creation_params;
            &&& funded.inv()
            &&& state.fund_bounty_result(now, origin, funder, bounty_id, amount) == Ok::<
                Event,
                Error,
            >(
                if bounty.total_funding + amount >= params.max_amount {
                    Event::BountyMaxFundingReached(bounty_id)
                } else {
                    Event::BountyFunded(bounty_id, funder, amount)
                },
            )
            &&& funded.balances[payer] == state.balances[payer] - amount
            &&& funded.escrow_balance(bounty_id) == state.escrow_balance(bounty_id) + amount
            &&& funded.contribution_by_bounty_by_actor(bounty_id, funder)
                == state.contribution_by_bounty_by_actor(bounty_id, funder) + amount
            &&& funded.contribution_total(bounty_id) == state.contribution_total(bounty_id)
                + amount
            &&& funded.bounties.contains_key(bounty_id)
            &&& funded.bounties[bounty_id].total_funding == bounty.total_funding + amount
            &&& funded.escrow_balance(bounty_id) == params.cherry + params.creator_funding
                + funded.contribution_total(bounty_id)
            &&& forall|who: AccountId|
                who != payer && who != AccountId::Bounty(bounty_id)
                    ==> #[trigger] funded.balances[who] == state.balances[who]
        }),
{
    lemma_fund_keeps_inv(state, now, origin, funder, bounty_id, amount);
    let payer = state.actor_account(origin, funder)->Ok_0;
    assert(state.bounties.contains_key(bounty_id));
    assert(state.bounties[bounty_id].milestone is Created);
    assert(payer != AccountId::Bounty(bounty_id));
}

/// The funding that brings a bounty to its target, or over it, is reported as reaching the
/// target and closes the funding: from then on no funding of the bounty is accepted at any
/// block, and one that passes every other check is rejected for the stage.
pub proof fn lemma_funding_closes_at_target(
    state: State,
    now: u64,
    origin: RawOrigin,
    funder: BountyActor,
    bounty_id: u64,
    amount: u64,
    later: u64,
    next_origin: RawOrigin,
    next_funder: BountyActor,
    next_amount: u64,
)
    requires
        state.inv(),
        state.within_limits(),
        state.fund_bounty_result(now, origin, funder, bounty_id, amount) is Ok,
        state.bounties[bounty_id].total_funding + amount
            >= state.bounties[bounty_id].creation_params.max_amount,
    ensures
        state.fund_bounty_result(now, origin, funder, bounty_id, amount) == Ok::<Event, Error>(
            Event::BountyMaxFundingReached(bounty_id),
        ),
        ({
            let funded = state.fund_bounty(now, origin, funder, bounty_id, amount);
            &&& funded.bounties.contains_key(bounty_id)
            &&& funded.bounties[bounty_id].milestone
                == (BountyMilestone::BountyMaxFundingReached {
                max_funding_reached_at: now,
                reached_on_creation: false,
            })
            &&& funded.fund_bounty_result(later, next_origin, next_funder, bounty_id, next_amount)
                is Err
            &&& (funded.actor_account(next_origin, next_funder) is Ok && next_amount > 0
                && next_amount >= funded.min_funding_limit && funded.balances[funded.actor_account(
                next_origin,
                next_funder,
            )->Ok_0] >= next_amount) ==> funded.fund_bounty_result(
                later,
                next_origin,
                next_funder,
                bounty_id,
                next_amount,
            ) == Err::<Event, Error>(Error::InvalidBountyStage)
        }),
{
    lemma_fund_keeps_inv(state, now, origin, funder, bounty_id, amount);
    let funded = state.fund_bounty(now, origin, funder, bounty_id, amount);
    assert(funded.bounties[bounty_id].milestone is BountyMaxFundingReached);
    assert(!(stage_of(funded.bounties[bounty_id], later) is Funding));
}

/// A bounty whose creator funds it to the target is past funding from its first block: it
/// cannot be canceled, not by its creator and not by a veto.
pub proof fn lemma_funded_on_creation_cannot_be_canceled(
    state: State,
    now: u64,
    origin: RawOrigin,
    params: BountyCreationParameters,
    later: u64,
    cancel_origin: RawOrigin,
)
    requires
        state.inv(),
        state.create_bounty_result(now, origin, params) is Ok,
        params.creator_funding >= params.max_amount,
    ensures
        ({
            let created = state.create_bounty(now, origin, params);
            let bounty_id = (state.bounty_count + 1) as u64;
            &&& created.bounties.contains_key(bounty_id)
            &&& created.bounties[bounty_id].milestone
                == (BountyMilestone::BountyMaxFundingReached {
                max_funding_reached_at: now,
                reached_on_creation: true,
            })
            &&& created.cancel_bounty_result(later, cancel_origin, params.creator, bounty_id)
                is Err
            &&& created.actor_account(cancel_origin, params.creator) is Ok
                ==> created.cancel_bounty_result(later, cancel_origin, params.creator, bounty_id)
                == Err::<Event, Error>(Error::InvalidBountyStage)
            &&& created.veto_bounty_result(later, RawOrigin::Root, bounty_id) == Err::<
                Event,
                Error,
            >(Error::InvalidBountyStage)
        }),
{
}

} // verus!
