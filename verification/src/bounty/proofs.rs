//! The proofs that every call of the bounty engine keeps the invariant of its state.

use crate::bounty::{
    Bounty, BountyActor, BountyCreationParameters, BountyMilestone, Contribution, WorkEntry,
};
use crate::bounty::state::{
    cherry_share, contributed_to, contribution_at, creator_refund, entered,
    entry_at, funders_total, stage_allows, stage_of, stake_slash, staked_on, BountyAction,
    State,
};
use crate::common::{blocks_between, RawOrigin};
use crate::ledger::AccountId;
use crate::sums::{
    lemma_sum_bounds_item, lemma_sum_push, lemma_sum_remove, lemma_sum_update, lemma_sum_zero,
    sum_by,
};
use vstd::prelude::*;

verus! {

// ---- sums of contributions and of work entries, bounty by bounty ----

/// A contribution that is appended adds its amount to what is contributed to its bounty, and
/// nothing to any other.
pub proof fn lemma_contributions_pushed(s: Seq<Contribution>, c: Contribution)
    ensures
        forall|j: u64| #[trigger]
            sum_by(s.push(c), contributed_to(j)) == sum_by(s, contributed_to(j)) + if j
                == c.bounty_id {
                c.amount as nat
            } else {
                0nat
            },
{
    assert forall|j: u64| #[trigger]
        sum_by(s.push(c), contributed_to(j)) == sum_by(s, contributed_to(j)) + if j
            == c.bounty_id {
            c.amount as nat
        } else {
            0nat
        } by {
        lemma_sum_push(s, c, contributed_to(j));
    }
}

/// A contribution that is replaced by one to the same bounty changes what is contributed to
/// that bounty by the difference of the amounts, and nothing of any other.
pub proof fn lemma_contributions_updated(s: Seq<Contribution>, at: int, c: Contribution)
    requires
        0 <= at < s.len(),
        c.bounty_id == s[at].bounty_id,
    ensures
        forall|j: u64| #[trigger]
            sum_by(s.update(at, c), contributed_to(j)) == sum_by(s, contributed_to(j)) + if j
                == c.bounty_id {
                c.amount - s[at].amount
            } else {
                0int
            },
{
    assert forall|j: u64| #[trigger]
        sum_by(s.update(at, c), contributed_to(j)) == sum_by(s, contributed_to(j)) + if j
            == c.bounty_id {
            c.amount - s[at].amount
        } else {
            0int
        } by {
        lemma_sum_update(s, at, c, contributed_to(j));
    }
}

/// A contribution that is removed takes its amount out of what is contributed to its bounty,
/// and nothing out of any other.
pub proof fn lemma_contributions_removed(s: Seq<Contribution>, at: int)
    requires
        0 <= at < s.len(),
    ensures
        forall|j: u64| #[trigger]
            sum_by(s.remove(at), contributed_to(j)) == sum_by(s, contributed_to(j)) - if j
                == s[at].bounty_id {
                s[at].amount as int
            } else {
                0int
            },
{
    assert forall|j: u64| #[trigger]
        sum_by(s.remove(at), contributed_to(j)) == sum_by(s, contributed_to(j)) - if j
            == s[at].bounty_id {
            s[at].amount as int
        } else {
            0int
        } by {
        lemma_sum_remove(s, at, contributed_to(j));
    }
}

/// A work entry that is appended adds its stake and itself to the stakes and the entries of
/// its bounty, and nothing to any other.
pub proof fn lemma_entries_pushed(s: Seq<WorkEntry>, e: WorkEntry)
    ensures
        forall|j: u64| #[trigger]
            sum_by(s.push(e), staked_on(j)) == sum_by(s, staked_on(j)) + if j == e.bounty_id {
                e.staked_amount as nat
            } else {
                0nat
            },
        forall|j: u64| #[trigger]
            sum_by(s.push(e), entered(j)) == sum_by(s, entered(j)) + if j == e.bounty_id {
                1nat
            } else {
                0nat
            },
{
    assert forall|j: u64| #[trigger]
        sum_by(s.push(e), staked_on(j)) == sum_by(s, staked_on(j)) + if j == e.bounty_id {
            e.staked_amount as nat
        } else {
            0nat
        } by {
        lemma_sum_push(s, e, staked_on(j));
    }
    assert forall|j: u64| #[trigger]
        sum_by(s.push(e), entered(j)) == sum_by(s, entered(j)) + if j == e.bounty_id {
            1nat
        } else {
            0nat
        } by {
        lemma_sum_push(s, e, entered(j));
    }
}

/// A work entry that is removed takes its stake and itself out of the stakes and the entries
/// of its bounty, and nothing out of any other.
pub proof fn lemma_entries_removed(s: Seq<WorkEntry>, at: int)
    requires
        0 <= at < s.len(),
    ensures
        forall|j: u64| #[trigger]
            sum_by(s.remove(at), staked_on(j)) == sum_by(s, staked_on(j)) - if j
                == s[at].bounty_id {
                s[at].staked_amount as int
            } else {
                0int
            },
        forall|j: u64| #[trigger]
            sum_by(s.remove(at), entered(j)) == sum_by(s, entered(j)) - if j == s[at].bounty_id {
                1int
            } else {
                0int
            },
{
    assert forall|j: u64| #[trigger]
        sum_by(s.remove(at), staked_on(j)) == sum_by(s, staked_on(j)) - if j == s[at].bounty_id {
            s[at].staked_amount as int
        } else {
            0int
        } by {
        lemma_sum_remove(s, at, staked_on(j));
    }
    assert forall|j: u64| #[trigger]
        sum_by(s.remove(at), entered(j)) == sum_by(s, entered(j)) - if j == s[at].bounty_id {
            1int
        } else {
            0int
        } by {
        lemma_sum_remove(s, at, entered(j));
    }
}

/// A bounty that no contribution names has nothing contributed.
pub proof fn lemma_no_contributions(s: Seq<Contribution>, bounty_id: u64)
    requires
        forall|i: int| 0 <= i < s.len() ==> (#[trigger] s[i]).bounty_id != bounty_id,
    ensures
        sum_by(s, contributed_to(bounty_id)) == 0,
{
    lemma_sum_zero(s, contributed_to(bounty_id));
}

/// A bounty that no work entry names has nothing staked and no active entry.
pub proof fn lemma_no_entries(s: Seq<WorkEntry>, bounty_id: u64)
    requires
        forall|i: int| 0 <= i < s.len() ==> (#[trigger] s[i]).bounty_id != bounty_id,
    ensures
        sum_by(s, staked_on(bounty_id)) == 0,
        sum_by(s, entered(bounty_id)) == 0,
{
    lemma_sum_zero(s, staked_on(bounty_id));
    lemma_sum_zero(s, entered(bounty_id));
}

/// The position of a funder's contribution is the only one that holds it.
pub proof fn lemma_contribution_position(
    state: State,
    i: int,
    bounty_id: u64,
    funder: BountyActor,
)
    requires
        state.inv(),
        contribution_at(state.contributions, i, bounty_id, funder),
    ensures
        state.has_contribution(bounty_id, funder),
        state.contribution_position(bounty_id, funder) == i,
        state.contribution_by_bounty_by_actor(bounty_id, funder) == state.contributions[i].amount,
        state.contributions[i].amount <= state.contribution_total(bounty_id),
        state.contributions_exist(bounty_id),
{
    let p = state.contribution_position(bounty_id, funder);
    assert(contribution_at(state.contributions, p, bounty_id, funder));
    if p < i {
        assert(!(state.contributions[p].bounty_id == state.contributions[i].bounty_id
            && state.contributions[p].funder == state.contributions[i].funder));
    } else if i < p {
        assert(!(state.contributions[i].bounty_id == state.contributions[p].bounty_id
            && state.contributions[i].funder == state.contributions[p].funder));
    }
    lemma_sum_bounds_item(state.contributions, i, contributed_to(bounty_id));
    assert(state.contributions[i].bounty_id == bounty_id);
}

/// The position of a member's work entry is the only one that holds it.
pub proof fn lemma_entry_position(
    state: State,
    i: int,
    bounty_id: u64,
    entry_id: u64,
    member_id: u64,
)
    requires
        state.inv(),
        entry_at(state.entries, i, bounty_id, entry_id, member_id),
    ensures
        state.has_entry(bounty_id, entry_id, member_id),
        state.entry_position(bounty_id, entry_id, member_id) == i,
        state.entries[i].staked_amount <= state.staked_total(bounty_id),
        1 <= state.active_entries(bounty_id),
{
    let p = state.entry_position(bounty_id, entry_id, member_id);
    assert(entry_at(state.entries, p, bounty_id, entry_id, member_id));
    if p < i {
        assert(state.entries[p].id != state.entries[i].id);
    } else if i < p {
        assert(state.entries[i].id != state.entries[p].id);
    }
    lemma_sum_bounds_item(state.entries, i, staked_on(bounty_id));
    lemma_sum_bounds_item(state.entries, i, entered(bounty_id));
}

// ---- the invariant, action by action ----

/// A call that erases no bounty, keeps what the funders have in the bounties, and pays
/// nothing into the account of a bounty that does not exist after it, keeps what the
/// invariant says of those accounts and of the contributions.
pub proof fn lemma_funders_are_kept(state: State, after: State)
    requires
        state.inv(),
        after.contributions == state.contributions,
        forall|id: u64|
            state.bounties.contains_key(id) ==> #[trigger] after.bounties.contains_key(id),
        forall|id: u64|
            !after.bounties.contains_key(id) ==> #[trigger] after.balances[AccountId::Bounty(id)]
                == state.balances[AccountId::Bounty(id)],
    ensures
        forall|id: u64|
            !after.bounties.contains_key(id) ==> #[trigger] after.escrow_balance(id) == 0,
        forall|i: int|
            0 <= i < after.contributions.len() ==> (#[trigger] after.contributions[i]).amount > 0
                && after.bounties.contains_key(after.contributions[i].bounty_id),
{
    assert forall|id: u64| !after.bounties.contains_key(id) implies #[trigger]
        after.escrow_balance(id) == 0 by {
        assert(state.escrow_balance(id) == 0);
    }
    assert forall|i: int| 0 <= i < after.contributions.len() implies (
    #[trigger] after.contributions[i]).amount > 0 && after.bounties.contains_key(
        after.contributions[i].bounty_id,
    ) by {
        assert(state.bounties.contains_key(state.contributions[i].bounty_id));
    }
}

/// A change of what accounts other than escrow accounts hold does not touch the invariant.
pub proof fn lemma_inv_rests_on_escrows(state: State, changed: State)
    requires
        state.inv(),
        changed == (State {
            balances: changed.balances,
            total_issuance: changed.total_issuance,
            members: changed.members,
            ..state
        }),
        forall|id: u64| #[trigger]
            changed.balances[AccountId::Bounty(id)] == state.balances[AccountId::Bounty(id)],
        forall|who: AccountId| #[trigger] changed.balances[who] <= u64::MAX,
    ensures
        changed.inv(),
{
    assert forall|id: u64| #[trigger] changed.bounties.contains_key(id) implies changed
        .bounty_in_order(id) by {
        assert(state.bounties.contains_key(id));
        assert(changed.escrow_balance(id) == state.escrow_balance(id));
    }
    assert forall|id: u64| !changed.bounties.contains_key(id) implies #[trigger]
        changed.escrow_balance(id) == 0 by {
        assert(state.escrow_balance(id) == 0);
    }
}

/// Creating a bounty keeps the invariant, while the counter of bounties is not at its end.
pub proof fn lemma_create_keeps_inv(
    state: State,
    now: u64,
    origin: RawOrigin,
    params: BountyCreationParameters,
)
    requires
        state.inv(),
        state.bounty_count < u64::MAX,
        state.create_bounty_result(now, origin, params) is Ok,
    ensures
        state.create_bounty(now, origin, params).inv(),
{
    let created = state.create_bounty(now, origin, params);
    let new_id = (state.bounty_count + 1) as u64;
    let payer = state.actor_account(origin, params.creator)->Ok_0;
    assert(!state.bounties.contains_key(new_id));
    assert(state.escrow_balance(new_id) == 0);
    assert(payer != AccountId::Bounty(new_id));
    assert(state.balances[payer] <= u64::MAX);
    assert forall|who: AccountId| #[trigger] created.balances[who] <= u64::MAX by {
        assert(state.balances[who] <= u64::MAX);
    }
    assert forall|i: int| 0 <= i < state.contributions.len() implies (
    #[trigger] state.contributions[i]).bounty_id != new_id by {
        assert(state.bounties.contains_key(state.contributions[i].bounty_id));
    }
    lemma_no_contributions(state.contributions, new_id);
    lemma_no_entries(state.entries, new_id);
    assert forall|id: u64| #[trigger] created.bounties.contains_key(id) implies created
        .bounty_in_order(id) by {
        if id == new_id {
            let bounty = created.bounties[id];
            assert(funders_total(bounty) == 0);
            assert((params.cherry - bounty.cherry_remaining) * funders_total(bounty)
                <= params.cherry * (funders_total(bounty) - 0)) by (nonlinear_arith)
                requires
                    funders_total(bounty) == 0,
                    bounty.cherry_remaining == params.cherry,
            ;
        } else {
            assert(state.bounties.contains_key(id));
            assert(created.escrow_balance(id) == state.escrow_balance(id));
        }
    }
    lemma_funders_are_kept(state, created);
}

/// Canceling a bounty that may be canceled keeps the invariant.
pub proof fn lemma_cancel_keeps_inv(state: State, now: u64, bounty_id: u64)
    requires
        state.inv(),
        state.bounties.contains_key(bounty_id),
        stage_allows(stage_of(state.bounties[bounty_id], now), BountyAction::Cancel),
    ensures
        state.canceled(bounty_id).inv(),
{
    let canceled = state.canceled(bounty_id);
    assert forall|id: u64| #[trigger] canceled.bounties.contains_key(id) implies canceled
        .bounty_in_order(id) by {
        assert(state.bounties.contains_key(id));
    }
    lemma_funders_are_kept(state, canceled);
}

/// Funding a bounty keeps the invariant. Neither the bounty's total funding nor the funder's
/// contribution can overflow by it, and the amount is added to what the escrow holds, to what
/// the funders have in the bounty and to what this funder has in it.
pub proof fn lemma_fund_keeps_inv(
    state: State,
    now: u64,
    origin: RawOrigin,
    funder: BountyActor,
    bounty_id: u64,
    amount: u64,
)
    requires
        state.inv(),
        state.fund_bounty_result(now, origin, funder, bounty_id, amount) is Ok,
    ensures
        state.fund_bounty(now, origin, funder, bounty_id, amount).inv(),
        state.bounties[bounty_id].total_funding + amount <= u64::MAX,
        state.contribution_by_bounty_by_actor(bounty_id, funder) + amount <= u64::MAX,
        ({
            let funded = state.fund_bounty(now, origin, funder, bounty_id, amount);
            &&& funded.escrow_balance(bounty_id) == state.escrow_balance(bounty_id) + amount
            &&& funded.contribution_total(bounty_id) == state.contribution_total(bounty_id)
                + amount
            &&& funded.contribution_by_bounty_by_actor(bounty_id, funder)
                == state.contribution_by_bounty_by_actor(bounty_id, funder) + amount
        }),
{
    let funded = state.fund_bounty(now, origin, funder, bounty_id, amount);
    let payer = state.actor_account(origin, funder)->Ok_0;
    let bounty = state.bounties[bounty_id];
    assert(state.bounties.contains_key(bounty_id));
    assert(bounty.milestone is Created);
    assert(payer != AccountId::Bounty(bounty_id));
    assert(state.escrow_balance(bounty_id) + amount <= u64::MAX);
    assert forall|who: AccountId| #[trigger] funded.balances[who] <= u64::MAX by {
        assert(state.balances[who] <= u64::MAX);
    }
    if state.has_contribution(bounty_id, funder) {
        let at = state.contribution_position(bounty_id, funder);
        assert(contribution_at(state.contributions, at, bounty_id, funder));
        lemma_contribution_position(state, at, bounty_id, funder);
        lemma_contributions_updated(
            state.contributions,
            at,
            Contribution {
                amount: (state.contributions[at].amount + amount) as u64,
                ..state.contributions[at]
            },
        );
    } else {
        lemma_contributions_pushed(state.contributions, Contribution { bounty_id, funder, amount });
        assert forall|j: int| 0 <= j < state.contributions.len() implies !(
        state.contributions[j].bounty_id == bounty_id && state.contributions[j].funder
            == funder) by {
            assert(!contribution_at(state.contributions, j, bounty_id, funder));
        }
    }
    assert forall|id: u64| #[trigger] funded.bounties.contains_key(id) implies funded
        .bounty_in_order(id) by {
        assert(state.bounties.contains_key(id));
        if id == bounty_id {
            let after = funded.bounties[id];
            assert(funded.contribution_total(id) == state.contribution_total(id) + amount);
            assert(funded.escrow_balance(id) == state.escrow_balance(id) + amount);
            assert(funders_total(after) == funders_total(bounty) + amount);
            assert((after.creation_params.cherry - after.cherry_remaining) * funders_total(after)
                <= after.creation_params.cherry * (funders_total(after)
                - funded.contribution_total(id))) by (nonlinear_arith)
                requires
                    after.cherry_remaining == after.creation_params.cherry,
                    funders_total(after) == funded.contribution_total(id),
            ;
        } else {
            assert(funded.escrow_balance(id) == state.escrow_balance(id));
            assert(funded.contribution_total(id) == state.contribution_total(id));
        }
    }
    assert forall|id: u64| !funded.bounties.contains_key(id) implies #[trigger]
        funded.escrow_balance(id) == 0 by {
        assert(state.escrow_balance(id) == 0);
    }
    assert forall|i: int| 0 <= i < funded.contributions.len() implies (
    #[trigger] funded.contributions[i]).amount > 0 && funded.bounties.contains_key(
        funded.contributions[i].bounty_id,
    ) by {
        if i < state.contributions.len() {
            assert(state.bounties.contains_key(state.contributions[i].bounty_id));
        }
    }
    assert(funded.inv());
    let at = if state.has_contribution(bounty_id, funder) {
        state.contribution_position(bounty_id, funder)
    } else {
        state.contributions.len() as int
    };
    assert(contribution_at(funded.contributions, at, bounty_id, funder));
    lemma_contribution_position(funded, at, bounty_id, funder);
}

/// The rounded-down share of a funder who is not the last fits into what is left of the
/// cherry, and paying it keeps the cherry in proportion.
pub proof fn lemma_cherry_share_fits(cherry: nat, left: nat, given: nat, contributed: nat, c: nat)
    requires
        left <= cherry,
        given > 0,
        c <= contributed <= given,
        (cherry - left) * given <= cherry * (given - contributed),
    ensures
        cherry * c / given <= left,
        (cherry - (left - cherry * c / given)) * given <= cherry * (given - (contributed - c)),
{
    let share = cherry * c / given;
    assert(share * given <= cherry * c) by (nonlinear_arith)
        requires
            share == cherry * c / given,
            given > 0,
    ;
    assert((cherry - left + share) * given <= cherry * (given - contributed + c))
        by (nonlinear_arith)
        requires
            share * given <= cherry * c,
            (cherry - left) * given <= cherry * (given - contributed),
    ;
    assert(cherry * (given - contributed + c) <= cherry * given) by (nonlinear_arith)
        requires
            c <= contributed,
    ;
    assert(share <= left) by (nonlinear_arith)
        requires
            (cherry - left + share) * given <= cherry * given,
            given > 0,
    ;
}

/// A slash is never more than the stake.
pub proof fn lemma_slash_within_stake(stake: u64, elapsed: nat, work_period: u64)
    ensures
        stake_slash(stake, elapsed, work_period) <= stake,
{
    if elapsed < work_period && work_period != 0 {
        assert(stake * elapsed / (work_period as int) <= stake) by (nonlinear_arith)
            requires
                0 <= elapsed < work_period,
                0 <= stake,
        ;
        assert(0 <= stake * elapsed / (work_period as int)) by (nonlinear_arith)
            requires
                0 <= elapsed,
                0 < work_period,
                0 <= stake,
        ;
    }
}

/// The share of a funder is within what is left of the cherry, and the escrow holds the share
/// and the contribution; paying the share of a funder who is not the last keeps the cherry in
/// proportion.
pub proof fn lemma_share_is_held(state: State, bounty_id: u64, funder: BountyActor)
    requires
        state.inv(),
        state.bounties.contains_key(bounty_id),
        state.has_contribution(bounty_id, funder),
    ensures
        state.cherry_for_funder(bounty_id, funder) <= state.bounties[bounty_id].cherry_remaining,
        state.contribution_by_bounty_by_actor(bounty_id, funder) + state.cherry_for_funder(
            bounty_id,
            funder,
        ) <= state.escrow_balance(bounty_id),
        0 < state.contribution_by_bounty_by_actor(bounty_id, funder) <= state.contribution_total(
            bounty_id,
        ),
        state.contribution_by_bounty_by_actor(bounty_id, funder) < state.contribution_total(
            bounty_id,
        ) ==> ({
            let share = state.cherry_for_funder(bounty_id, funder);
            let bounty = state.bounties[bounty_id];
            (bounty.creation_params.cherry - (bounty.cherry_remaining - share)) * funders_total(
                bounty,
            ) <= bounty.creation_params.cherry * (funders_total(bounty) - (
            state.contribution_total(bounty_id) - state.contribution_by_bounty_by_actor(
                bounty_id,
                funder,
            )))
        }),
{
    let bounty = state.bounties[bounty_id];
    let at = state.contribution_position(bounty_id, funder);
    assert(contribution_at(state.contributions, at, bounty_id, funder));
    lemma_contribution_position(state, at, bounty_id, funder);
    let c = state.contributions[at].amount;
    if c < state.contribution_total(bounty_id) {
        lemma_cherry_share_fits(
            bounty.creation_params.cherry as nat,
            bounty.cherry_remaining as nat,
            funders_total(bounty),
            state.contribution_total(bounty_id),
            c as nat,
        );
    }
}

/// Handing a funder its contribution and its share of the cherry keeps the invariant.
pub proof fn lemma_withdraw_funding_keeps_inv(
    state: State,
    now: u64,
    origin: RawOrigin,
    funder: BountyActor,
    bounty_id: u64,
)
    requires
        state.inv(),
        state.withdraw_funding_check(now, origin, funder, bounty_id) is Ok,
    ensures
        state.withdraw_funding(now, origin, funder, bounty_id).inv(),
{
    let after = state.withdraw_funding(now, origin, funder, bounty_id);
    let payee = state.withdraw_funding_check(now, origin, funder, bounty_id)->Ok_0;
    let bounty = state.bounties[bounty_id];
    let params = bounty.creation_params;
    let at = state.contribution_position(bounty_id, funder);
    assert(state.bounties.contains_key(bounty_id));
    assert(contribution_at(state.contributions, at, bounty_id, funder));
    lemma_contribution_position(state, at, bounty_id, funder);
    lemma_share_is_held(state, bounty_id, funder);
    let c = state.contributions[at].amount;
    let contributed = state.contribution_total(bounty_id);
    let given = funders_total(bounty);
    let share = state.cherry_for_funder(bounty_id, funder);
    assert(share == cherry_share(bounty, c, contributed));
    assert(payee != AccountId::Bounty(bounty_id));
    if c >= contributed {
        assert(params.cherry * given <= params.cherry * (given - (contributed - c)))
            by (nonlinear_arith)
            requires
                c == contributed,
        ;
    }
    assert forall|who: AccountId| #[trigger] after.balances[who] <= u64::MAX by {
        assert(state.balances[who] <= u64::MAX);
    }
    lemma_contributions_removed(state.contributions, at);
    let paid = State {
        contributions: state.contributions.remove(at),
        balances: crate::ledger::moved(
            state.balances,
            AccountId::Bounty(bounty_id),
            payee,
            (c + share) as nat,
        ),
        ..state
    };
    let kept = Bounty {
        cherry_remaining: (bounty.cherry_remaining - share) as u64,
        milestone: match bounty.milestone {
            BountyMilestone::Created { .. } => BountyMilestone::Canceled,
            other => other,
        },
        ..bounty
    };
    assert(after == paid.settled(bounty_id, kept));
    assert(paid.escrow_balance(bounty_id) == state.escrow_balance(bounty_id) - c - share);
    assert(paid.contribution_total(bounty_id) == contributed - c);
    assert forall|id: u64| #[trigger] after.bounties.contains_key(id) implies after
        .bounty_in_order(id) by {
        assert(state.bounties.contains_key(id));
        if id != bounty_id {
            assert(after.escrow_balance(id) == state.escrow_balance(id));
            assert(after.contribution_total(id) == state.contribution_total(id));
            assert(after.bounties[id] == state.bounties[id]);
        } else {
            assert(after.bounties[id] == kept);
        }
    }
    assert forall|id: u64| !after.bounties.contains_key(id) implies #[trigger]
        after.escrow_balance(id) == 0 by {
        if id != bounty_id {
            assert(!state.bounties.contains_key(id));
            assert(state.escrow_balance(id) == 0);
        }
    }
    assert forall|i: int| 0 <= i < after.contributions.len() implies (
    #[trigger] after.contributions[i]).amount > 0 && after.bounties.contains_key(
        after.contributions[i].bounty_id,
    ) by {
        let k = if i < at {
            i
        } else {
            i + 1
        };
        assert(after.contributions[i] == state.contributions[k]);
        assert(state.bounties.contains_key(state.contributions[k].bounty_id));
        if after.contributions[i].bounty_id == bounty_id {
            assert(paid.contributions_exist(bounty_id));
        }
    }
    assert forall|i: int, j: int| 0 <= i < j < after.contributions.len() implies !((
    #[trigger] after.contributions[i]).bounty_id == (#[trigger] after.contributions[j]).bounty_id
        && after.contributions[i].funder == after.contributions[j].funder) by {
        let ki = if i < at {
            i
        } else {
            i + 1
        };
        let kj = if j < at {
            j
        } else {
            j + 1
        };
        assert(after.contributions[i] == state.contributions[ki]);
        assert(after.contributions[j] == state.contributions[kj]);
    }
}

/// Handing the creator its refund keeps the invariant, and the escrow holds the refund.
pub proof fn lemma_withdraw_creator_funding_keeps_inv(
    state: State,
    now: u64,
    origin: RawOrigin,
    creator: BountyActor,
    bounty_id: u64,
)
    requires
        state.inv(),
        state.withdraw_creator_funding_check(now, origin, creator, bounty_id) is Ok,
    ensures
        state.withdraw_creator_funding(now, origin, creator, bounty_id).inv(),
        creator_refund(state.bounties[bounty_id]) <= state.escrow_balance(bounty_id),
{
    let after = state.withdraw_creator_funding(now, origin, creator, bounty_id);
    let payee = state.withdraw_creator_funding_check(now, origin, creator, bounty_id)->Ok_0;
    let bounty = state.bounties[bounty_id];
    let params = bounty.creation_params;
    let given = funders_total(bounty);
    let contributed = state.contribution_total(bounty_id);
    assert(state.bounties.contains_key(bounty_id));
    assert(payee != AccountId::Bounty(bounty_id));
    assert forall|who: AccountId| #[trigger] after.balances[who] <= u64::MAX by {
        assert(state.balances[who] <= u64::MAX);
    }
    let paid = State {
        balances: crate::ledger::moved(
            state.balances,
            AccountId::Bounty(bounty_id),
            payee,
            creator_refund(bounty),
        ),
        ..state
    };
    let kept = Bounty {
        creator_funding_remaining: 0,
        cherry_remaining: if given == 0 {
            0
        } else {
            bounty.cherry_remaining
        },
        milestone: BountyMilestone::CreatorFundsWithdrawn,
        ..bounty
    };
    assert(after == paid.settled(bounty_id, kept));
    assert(paid.escrow_balance(bounty_id) == state.escrow_balance(bounty_id) - creator_refund(
        bounty,
    ));
    if given == 0 {
        assert((params.cherry - 0) * given <= params.cherry * (given - contributed))
            by (nonlinear_arith)
            requires
                given == 0,
                contributed == 0,
        ;
    }
    assert forall|id: u64| #[trigger] after.bounties.contains_key(id) implies after
        .bounty_in_order(id) by {
        assert(state.bounties.contains_key(id));
        if id != bounty_id {
            assert(after.escrow_balance(id) == state.escrow_balance(id));
            assert(after.bounties[id] == state.bounties[id]);
        } else {
            assert(after.bounties[id] == kept);
        }
    }
    assert forall|id: u64| !after.bounties.contains_key(id) implies #[trigger]
        after.escrow_balance(id) == 0 by {
        if id != bounty_id {
            assert(!state.bounties.contains_key(id));
            assert(state.escrow_balance(id) == 0);
        }
    }
    assert forall|i: int| 0 <= i < after.contributions.len() implies (
    #[trigger] after.contributions[i]).amount > 0 && after.bounties.contains_key(
        after.contributions[i].bounty_id,
    ) by {
        assert(state.bounties.contains_key(state.contributions[i].bounty_id));
        if after.contributions[i].bounty_id == bounty_id {
            assert(paid.contributions_exist(bounty_id));
        }
    }
}

/// Announcing a work entry keeps the invariant, while the counter of entries is not at its
/// end.
pub proof fn lemma_announce_keeps_inv(
    state: State,
    now: u64,
    origin: RawOrigin,
    member_id: u64,
    staking_account_id: Option<u64>,
    bounty_id: u64,
)
    requires
        state.inv(),
        state.entry_count < u64::MAX,
        state.announce_work_entry_result(now, origin, member_id, staking_account_id, bounty_id)
            is Ok,
    ensures
        state.announce_work_entry(now, origin, member_id, staking_account_id, bounty_id).inv(),
{
    let after = state.announce_work_entry(now, origin, member_id, staking_account_id, bounty_id);
    let bounty = state.bounties[bounty_id];
    let stake = bounty.creation_params.entrant_stake;
    let entry = WorkEntry {
        id: (state.entry_count + 1) as u64,
        bounty_id,
        member_id,
        staking_account_id,
        staked_amount: stake,
        submitted_at: now,
    };
    assert(state.bounties.contains_key(bounty_id));
    lemma_entries_pushed(state.entries, entry);
    assert forall|who: AccountId| #[trigger] after.balances[who] <= u64::MAX by {
        assert(state.balances[who] <= u64::MAX);
    }
    assert forall|id: u64| #[trigger] after.bounties.contains_key(id) implies after
        .bounty_in_order(id) by {
        assert(state.bounties.contains_key(id));
        if id != bounty_id {
            assert(after.escrow_balance(id) == state.escrow_balance(id));
            assert(after.staked_total(id) == state.staked_total(id));
            assert(after.active_entries(id) == state.active_entries(id));
        } else {
            assert(after.escrow_balance(id) == state.escrow_balance(id) + stake);
            assert(after.staked_total(id) == state.staked_total(id) + stake);
            assert(after.active_entries(id) == state.active_entries(id) + 1);
        }
    }
    lemma_funders_are_kept(state, after);
}

/// Withdrawing a work entry keeps the invariant; what is refunded is within the stake, the
/// escrow holds the stake, and the bounty has the entry counted.
pub proof fn lemma_withdraw_work_entry_keeps_inv(
    state: State,
    now: u64,
    origin: RawOrigin,
    member_id: u64,
    bounty_id: u64,
    entry_id: u64,
)
    requires
        state.inv(),
        state.withdraw_work_entry_result(now, origin, member_id, bounty_id, entry_id) is Ok,
    ensures
        state.withdraw_work_entry(now, origin, member_id, bounty_id, entry_id).inv(),
        ({
            let at = state.entry_position(bounty_id, entry_id, member_id);
            &&& state.stake_refund(at, now) <= state.entries[at].staked_amount
            &&& state.entries[at].staked_amount <= state.escrow_balance(bounty_id)
            &&& state.bounties[bounty_id].forfeited_stake + state.entries[at].staked_amount
                - state.stake_refund(at, now) <= u64::MAX
            &&& state.bounties[bounty_id].active_work_entry_count >= 1
        }),
{
    let after = state.withdraw_work_entry(now, origin, member_id, bounty_id, entry_id);
    let at = state.entry_position(bounty_id, entry_id, member_id);
    assert(state.bounties.contains_key(bounty_id));
    assert(entry_at(state.entries, at, bounty_id, entry_id, member_id));
    lemma_entry_position(state, at, bounty_id, entry_id, member_id);
    let entry = state.entries[at];
    let bounty = state.bounties[bounty_id];
    let refund = state.stake_refund(at, now);
    lemma_slash_within_stake(
        entry.staked_amount,
        blocks_between(entry.submitted_at, now),
        bounty.creation_params.work_period,
    );
    lemma_entries_removed(state.entries, at);
    assert(state.escrow_balance(bounty_id) <= u64::MAX);
    assert forall|who: AccountId| #[trigger] after.balances[who] <= u64::MAX by {
        assert(state.balances[who] <= u64::MAX);
    }
    assert forall|id: u64| #[trigger] after.bounties.contains_key(id) implies after
        .bounty_in_order(id) by {
        assert(state.bounties.contains_key(id));
        if id != bounty_id {
            assert(after.escrow_balance(id) == state.escrow_balance(id));
            assert(after.staked_total(id) == state.staked_total(id));
            assert(after.active_entries(id) == state.active_entries(id));
        } else {
            assert(after.escrow_balance(id) == state.escrow_balance(id) - refund);
            assert(after.staked_total(id) == state.staked_total(id) - entry.staked_amount);
            assert(after.active_entries(id) == state.active_entries(id) - 1);
        }
    }
    lemma_funders_are_kept(state, after);
    assert forall|i: int| 0 <= i < after.entries.len() implies 1 <= (
    #[trigger] after.entries[i]).id <= after.entry_count && 1 <= after.entries[i].bounty_id
        <= after.bounty_count && (after.entries[i].staked_amount > 0
        ==> after.entries[i].staking_account_id is Some) by {
        let k = if i < at {
            i
        } else {
            i + 1
        };
        assert(after.entries[i] == state.entries[k]);
    }
    assert forall|i: int, j: int| 0 <= i < j < after.entries.len() implies (
    #[trigger] after.entries[i]).id != (#[trigger] after.entries[j]).id by {
        let ki = if i < at {
            i
        } else {
            i + 1
        };
        let kj = if j < at {
            j
        } else {
            j + 1
        };
        assert(after.entries[i] == state.entries[ki]);
        assert(after.entries[j] == state.entries[kj]);
    }
}

} // verus!
