//! What holds of the spending budget engine whatever is called: rewards accrue additively,
//! payments come out of the budget, and the limits are kept.

use crate::common::saturate;
use crate::spending_budget::{BudgetAutoPayment, Module, RewardRecipient};
use crate::spending_budget::proofs::{
    lemma_recipient_position, lemma_recipients_added, lemma_recipients_replaced,
};
use crate::spending_budget::state::{
    accrued_reward, current_reward, listed_once, paid_at, pay_from, recipient_at, PaymentRun,
    State,
};
use vstd::prelude::*;

verus! {

/// Between calls no budget has more recipients than the limit, and no user is recorded twice
/// in one budget. The budgets that refill periodically are the ones that are listed for it,
/// each once, and no more of them than the limit; the budgets that pay their recipients
/// periodically are the ones that are listed for it, each once.
pub proof fn lemma_limits_are_kept(module: &Module, budget_type: u64)
    requires
        module.wf(),
    ensures
        module@.recipient_count(budget_type) <= module@.max_budget_reward_recipients,
        module@.active_budget_refills.len() <= module@.max_refilling_budgets,
        module@.active_budget_refills.contains(budget_type) <==> module@.budgets.contains_key(
            budget_type,
        ) && module@.budgets[budget_type].refill is Some,
        module@.active_budget_auto_payments.contains(budget_type)
            <==> module@.budgets.contains_key(budget_type)
            && module@.budgets[budget_type].auto_payment is Some,
{
    module.lemma_wf_implies_inv();
}

/// Storing the record of a user keeps the state's invariant and makes the record the user's.
pub proof fn lemma_with_recipient(
    state: State,
    budget_type: u64,
    user_id: u64,
    recipient: RewardRecipient,
)
    requires
        state.inv(),
        recipient.user_id == user_id,
        state.has_recipient(budget_type, user_id) || state.recipient_count(budget_type)
            < state.max_budget_reward_recipients,
    ensures
        state.with_recipient(budget_type, user_id, recipient).inv(),
        state.with_recipient(budget_type, user_id, recipient).has_recipient(budget_type, user_id),
        state.with_recipient(budget_type, user_id, recipient).recipient(budget_type, user_id)
            == recipient,
{
    let stored = state.with_recipient(budget_type, user_id, recipient);
    let record = crate::spending_budget::RecipientRecord { budget_type, recipient };
    if state.has_recipient(budget_type, user_id) {
        let at = state.recipient_position(budget_type, user_id);
        assert(recipient_at(state.recipients, at, budget_type, user_id));
        lemma_recipients_replaced(
            state.recipients,
            state.max_budget_reward_recipients,
            at,
            record,
        );
        assert(recipient_at(stored.recipients, at, budget_type, user_id));
        lemma_recipient_position(stored, at, budget_type, user_id);
    } else {
        let at = state.recipients.len() as int;
        lemma_recipients_added(state.recipients, state.max_budget_reward_recipients, record);
        assert(recipient_at(stored.recipients, at, budget_type, user_id));
        lemma_recipient_position(stored, at, budget_type, user_id);
    }
}

/// A withdrawal that is rejected changes nothing: every check, and the payment itself, comes
/// before the first change.
pub proof fn lemma_rejected_withdrawal_changes_nothing(
    state: State,
    now: u64,
    origin: crate::common::RawOrigin,
    budget_type: u64,
    user_id: u64,
)
    requires
        state.withdraw_reward_result(now, origin, budget_type, user_id) is Err,
    ensures
        state.withdraw_reward(now, origin, budget_type, user_id) == state,
{
}

/// A withdrawal pays the smaller of the reward and the budget's balance, out of the budget and
/// into the caller's account; what the budget could not pay stays owed.
pub proof fn lemma_withdrawal_pays_what_the_budget_can(
    state: State,
    now: u64,
    origin: crate::common::RawOrigin,
    budget_type: u64,
    user_id: u64,
)
    requires
        state.inv(),
        state.withdraw_reward_result(now, origin, budget_type, user_id) is Ok,
    ensures
        ({
            let (account_id, recipient, reward) = state.can_withdraw_reward(
                now,
                origin,
                budget_type,
                user_id,
            )->Ok_0;
            let balance = state.budget(budget_type).balance;
            let paid = if reward <= balance {
                reward
            } else {
                balance
            };
            let after = state.withdraw_reward(now, origin, budget_type, user_id);
            &&& reward == current_reward(state.recipient(budget_type, user_id), now)
            &&& paid > 0
            &&& after.budget(budget_type).balance == balance - paid
            &&& after.balances[crate::ledger::AccountId::External(account_id)]
                == state.balances[crate::ledger::AccountId::External(account_id)] + paid
            &&& after.total_issuance == state.total_issuance + paid
            &&& after.has_recipient(budget_type, user_id)
            &&& after.recipient(budget_type, user_id).unpaid_reward == reward - paid
            &&& after.recipient(budget_type, user_id).last_payment_block == now
            &&& after.recipient(budget_type, user_id).reward_per_block
                == recipient.reward_per_block
        }),
{
    let (account_id, recipient, reward) = state.can_withdraw_reward(
        now,
        origin,
        budget_type,
        user_id,
    )->Ok_0;
    let (available, missing) = crate::spending_budget::state::split_reward(
        state.budget(budget_type).balance,
        reward,
    );
    let at = state.recipient_position(budget_type, user_id);
    assert(recipient_at(state.recipients, at, budget_type, user_id));
    let budget = state.budget(budget_type);
    let paid_state = State {
        balances: crate::ledger::credit(
            state.balances,
            crate::ledger::AccountId::External(account_id),
            available as nat,
        ),
        total_issuance: (state.total_issuance + available) as nat,
        budgets: state.budgets.insert(
            budget_type,
            crate::spending_budget::Budget {
                balance: (budget.balance - available) as u64,
                ..budget
            },
        ),
        ..state
    };
    assert(paid_state.recipients == state.recipients);
    assert(paid_state.has_recipient(budget_type, user_id)) by {
        assert(recipient_at(paid_state.recipients, at, budget_type, user_id));
    }
    lemma_recipient_position(paid_state, at, budget_type, user_id);
    let stored = RewardRecipient {
        last_payment_block: now,
        unpaid_reward: missing,
        ..recipient
    };
    let after = state.withdraw_reward(now, origin, budget_type, user_id);
    assert(after == paid_state.with_recipient(budget_type, user_id, stored));
    assert(recipient_at(after.recipients, at, budget_type, user_id));
    lemma_recipient_position(after, at, budget_type, user_id);
}

/// A recipient registered at block `start` with the rate `first_rate`, and registered again
/// `n` blocks later with the rate `second_rate`, has `first_rate * n` unpaid right after the
/// second registration, and `first_rate * n + second_rate * m` to withdraw `m` blocks after it:
/// every block is paid once, at the rate that held in it.
pub proof fn lemma_reward_accrual_is_additive(
    state: State,
    budget_type: u64,
    user_id: u64,
    start: u64,
    first_rate: u64,
    n: u64,
    second_rate: u64,
    m: u64,
)
    requires
        state.inv(),
        !state.has_recipient(budget_type, user_id),
        state.can_add_recipient(budget_type, user_id),
        start + n + m <= u64::MAX,
        first_rate * n + second_rate * m <= u64::MAX,
    ensures
        ({
            let registered = state.add_recipient(start, budget_type, user_id, first_rate);
            let changed = registered.add_recipient(
                (start + n) as u64,
                budget_type,
                user_id,
                second_rate,
            );
            &&& changed.has_recipient(budget_type, user_id)
            &&& changed.recipient(budget_type, user_id).unpaid_reward == first_rate * n
            &&& current_reward(changed.recipient(budget_type, user_id), (start + n + m) as u64)
                == first_rate * n + second_rate * m
        }),
{
    let registered = state.add_recipient(start, budget_type, user_id, first_rate);
    lemma_with_recipient(
        state,
        budget_type,
        user_id,
        RewardRecipient {
            last_payment_block: start,
            reward_per_block: first_rate,
            unpaid_reward: 0,
            pull_reward_enabled: false,
            auto_payment_account_id: None,
            user_id,
        },
    );
    let first = registered.recipient(budget_type, user_id);
    assert(first.unpaid_reward == 0 && first.last_payment_block == start && first.reward_per_block
        == first_rate);
    assert(0 <= first_rate * n && 0 <= second_rate * m) by (nonlinear_arith);
    assert(accrued_reward(first, (start + n) as u64) == first_rate * n) by (nonlinear_arith)
        requires
            first.unpaid_reward == 0,
            first.last_payment_block == start,
            first.reward_per_block == first_rate,
            start + n <= u64::MAX,
    ;
    let changed = registered.add_recipient((start + n) as u64, budget_type, user_id, second_rate);
    let at = registered.recipient_position(budget_type, user_id);
    assert(recipient_at(registered.recipients, at, budget_type, user_id));
    lemma_with_recipient(
        registered,
        budget_type,
        user_id,
        RewardRecipient {
            last_payment_block: (start + n) as u64,
            reward_per_block: second_rate,
            unpaid_reward: current_reward(first, (start + n) as u64),
            ..first
        },
    );
    let second = changed.recipient(budget_type, user_id);
    assert(second.unpaid_reward == first_rate * n);
    assert(accrued_reward(second, (start + n + m) as u64) == first_rate * n + second_rate * m)
        by (nonlinear_arith)
        requires
            second.unpaid_reward == first_rate * n,
            second.last_payment_block == start + n,
            second.reward_per_block == second_rate,
            start + n + m <= u64::MAX,
    ;
}

/// A change of rate loses nothing and counts nothing twice: what the recipient has accrued at
/// a block after the change is what it had accrued when the rate changed and the new rate for
/// every block since.
pub proof fn lemma_rate_change_keeps_reward(
    state: State,
    budget_type: u64,
    user_id: u64,
    now: u64,
    later: u64,
    rate: u64,
)
    requires
        state.inv(),
        state.has_recipient(budget_type, user_id),
        now <= later,
        accrued_reward(state.recipient(budget_type, user_id), now) <= u64::MAX,
    ensures
        ({
            let changed = state.add_recipient(now, budget_type, user_id, rate);
            &&& changed.has_recipient(budget_type, user_id)
            &&& accrued_reward(changed.recipient(budget_type, user_id), later) == accrued_reward(
                state.recipient(budget_type, user_id),
                now,
            ) + rate * (later - now)
        }),
{
    let at = state.recipient_position(budget_type, user_id);
    assert(recipient_at(state.recipients, at, budget_type, user_id));
    let changed = state.add_recipient(now, budget_type, user_id, rate);
    assert(recipient_at(changed.recipients, at, budget_type, user_id));
    lemma_recipient_position(changed, at, budget_type, user_id);
    let after = changed.recipient(budget_type, user_id);
    assert(accrued_reward(after, later) == after.unpaid_reward + rate * (later - now))
        by (nonlinear_arith)
        requires
            after.last_payment_block == now,
            after.reward_per_block == rate,
            now <= later,
    ;
}

/// A user that was removed from the recipients keeps what it had accrued, and accrues no more.
pub proof fn lemma_removed_recipient_keeps_reward(
    state: State,
    budget_type: u64,
    user_id: u64,
    now: u64,
    later: u64,
)
    requires
        state.inv(),
        state.has_recipient(budget_type, user_id),
    ensures
        ({
            let removed = state.remove_recipient(now, budget_type, user_id);
            &&& removed.has_recipient(budget_type, user_id)
            &&& current_reward(removed.recipient(budget_type, user_id), later) == current_reward(
                state.recipient(budget_type, user_id),
                now,
            )
        }),
{
    let at = state.recipient_position(budget_type, user_id);
    assert(recipient_at(state.recipients, at, budget_type, user_id));
    let removed = state.remove_recipient(now, budget_type, user_id);
    assert(recipient_at(removed.recipients, at, budget_type, user_id));
    lemma_recipient_position(removed, at, budget_type, user_id);
    let after = removed.recipient(budget_type, user_id);
    assert(accrued_reward(after, later) == after.unpaid_reward) by (nonlinear_arith)
        requires
            after.reward_per_block == 0,
    ;
}

/// A run of automatic payments creates in the accounts exactly what it takes from the budget,
/// and it never takes more than the budget holds. It keeps the number of records, and it
/// leaves every record of another budget as it was.
pub proof fn lemma_payments_come_from_budget(run: PaymentRun, budget_type: u64, now: u64, i: int)
    requires
        0 <= i,
    ensures
        ({
            let done = pay_from(run, budget_type, now, i);
            &&& done.remaining <= run.remaining
            &&& done.total_issuance - run.total_issuance == run.remaining - done.remaining
            &&& done.recipients.len() == run.recipients.len()
            &&& forall|k: int|
                0 <= k < run.recipients.len() && #[trigger] run.recipients[k].budget_type
                    != budget_type ==> done.recipients[k] == run.recipients[k]
            &&& forall|k: int|
                0 <= k < i && k < run.recipients.len() ==> #[trigger] done.recipients[k]
                    == run.recipients[k]
        }),
    decreases run.recipients.len() - i,
{
    if i >= run.recipients.len() || run.remaining == 0 {
    } else if run.recipients[i].budget_type != budget_type {
        lemma_payments_come_from_budget(run, budget_type, now, i + 1);
    } else {
        let recipient = run.recipients[i].recipient;
        let reward = current_reward(recipient, now);
        let payment = if run.remaining >= reward {
            reward
        } else {
            run.remaining
        };
        match recipient.auto_payment_account_id {
            None => {
                lemma_payments_come_from_budget(run, budget_type, now, i + 1);
            },
            Some(account) => {
                if crate::ledger::has_room(
                    run.balances,
                    crate::ledger::AccountId::External(account),
                    payment as nat,
                ) {
                    let next = step_of(run, budget_type, now, i);
                    lemma_payments_come_from_budget(next, budget_type, now, i + 1);
                    let done = pay_from(run, budget_type, now, i);
                    assert(done == pay_from(next, budget_type, now, i + 1));
                    assert forall|k: int|
                        0 <= k < run.recipients.len() && #[trigger] run.recipients[k].budget_type
                            != budget_type implies done.recipients[k] == run.recipients[k] by {
                        assert(next.recipients[k] == run.recipients[k]);
                    }
                    assert forall|k: int| 0 <= k < i && k < run.recipients.len() implies #[trigger]
                        done.recipients[k] == run.recipients[k] by {
                        assert(next.recipients[k] == run.recipients[k]);
                    }
                }
            },
        }
    }
}

/// Once the budget is empty a run of automatic payments changes nothing: the recipients that
/// were not reached keep what they are owed.
pub proof fn lemma_empty_budget_pays_nothing(run: PaymentRun, budget_type: u64, now: u64, i: int)
    requires
        run.remaining == 0,
    ensures
        pay_from(run, budget_type, now, i) == run,
{
}

/// A run of automatic payments loses no reward: every record is left untouched or paid, and
/// a recipient that was paid in part, or not reached, is still owed the rest.
pub proof fn lemma_run_keeps_what_is_owed(run: PaymentRun, budget_type: u64, now: u64, i: int)
    requires
        0 <= i,
    ensures
        pay_from(run, budget_type, now, i).recipients.len() == run.recipients.len(),
        forall|k: int|
            0 <= k < run.recipients.len() ==> paid_at(
                run.recipients[k],
                #[trigger] pay_from(run, budget_type, now, i).recipients[k],
                now,
            ),
    decreases run.recipients.len() - i,
{
    let done = pay_from(run, budget_type, now, i);
    lemma_payments_come_from_budget(run, budget_type, now, i);
    if i >= run.recipients.len() || run.remaining == 0 {
    } else if run.recipients[i].budget_type != budget_type {
        lemma_run_keeps_what_is_owed(run, budget_type, now, i + 1);
    } else {
        let recipient = run.recipients[i].recipient;
        let reward = current_reward(recipient, now);
        let payment = if run.remaining >= reward {
            reward
        } else {
            run.remaining
        };
        match recipient.auto_payment_account_id {
            None => {
                lemma_run_keeps_what_is_owed(run, budget_type, now, i + 1);
            },
            Some(account) => {
                if crate::ledger::has_room(
                    run.balances,
                    crate::ledger::AccountId::External(account),
                    payment as nat,
                ) {
                    let next = step_of(run, budget_type, now, i);
                    assert(done == pay_from(next, budget_type, now, i + 1));
                    lemma_run_keeps_what_is_owed(next, budget_type, now, i + 1);
                    lemma_payments_come_from_budget(next, budget_type, now, i + 1);
                    assert forall|k: int| 0 <= k < run.recipients.len() implies paid_at(
                        run.recipients[k],
                        #[trigger] done.recipients[k],
                        now,
                    ) by {
                        if k == i {
                            assert(done.recipients[i] == next.recipients[i]);
                        } else {
                            assert(next.recipients[k] == run.recipients[k]);
                        }
                    }
                }
            },
        }
    }
}

// Whether the list names the budget type at `i` or behind it.
spec fn listed_behind(listed: Seq<u64>, i: int, budget_type: u64) -> bool {
    exists|j: int| i <= j < listed.len() && listed[j] == budget_type
}

// What the law of planned payments says of the budgets of a list from position `i` on.
proof fn lemma_listed_payments_are_planned(
    state: State,
    now: u64,
    listed: Seq<u64>,
    i: int,
    budget_type: u64,
)
    requires
        listed_once(listed),
        0 <= i <= listed.len(),
    ensures
        ({
            let after = state.pay_listed_from(now, listed, i);
            &&& after.recipients.len() == state.recipients.len()
            &&& forall|k: int|
                0 <= k < state.recipients.len() ==> paid_at(
                    state.recipients[k],
                    #[trigger] after.recipients[k],
                    now,
                )
            &&& match state.budget(budget_type).auto_payment {
                Some(planned) if planned.next_auto_payment == now && listed_behind(
                    listed,
                    i,
                    budget_type,
                ) => after.budget(budget_type).auto_payment == Some(
                    BudgetAutoPayment {
                        period: planned.period,
                        next_auto_payment: saturate(now + planned.period),
                    },
                ),
                _ => after.budget(budget_type) == state.budget(budget_type),
            }
        }),
    decreases listed.len() - i,
{
    if i < listed.len() {
        let first = listed[i];
        let paid = state.pay_if_due(now, first);
        let after = state.pay_listed_from(now, listed, i);
        assert(after == paid.pay_listed_from(now, listed, i + 1));
        lemma_run_keeps_what_is_owed(
            PaymentRun {
                recipients: state.recipients,
                balances: state.balances,
                total_issuance: state.total_issuance,
                remaining: state.budget(first).balance,
            },
            first,
            now,
            0,
        );
        lemma_listed_payments_are_planned(paid, now, listed, i + 1, budget_type);
        assert forall|k: int| 0 <= k < state.recipients.len() implies paid_at(
            state.recipients[k],
            #[trigger] after.recipients[k],
            now,
        ) by {
            assert(paid_at(state.recipients[k], paid.recipients[k], now));
            assert(paid_at(paid.recipients[k], after.recipients[k], now));
            let record = paid.recipients[k].recipient;
            if paid.recipients[k] != state.recipients[k] {
                assert(record.last_payment_block == now);
                assert(crate::common::blocks_between(now, now) == 0);
                assert(accrued_reward(record, now) == record.unpaid_reward) by (nonlinear_arith)
                    requires
                        crate::common::blocks_between(record.last_payment_block, now) == 0,
                        accrued_reward(record, now) == (record.unpaid_reward
                            + crate::common::blocks_between(record.last_payment_block, now)
                            * record.reward_per_block) as nat,
                ;
                assert(current_reward(record, now) == record.unpaid_reward);
            }
        }
        if first == budget_type {
            assert(!listed_behind(listed, i + 1, budget_type)) by {
                if listed_behind(listed, i + 1, budget_type) {
                    let j = choose|j: int| i + 1 <= j < listed.len() && listed[j] == budget_type;
                    assert(listed[i] != listed[j]);
                }
            }
            assert(listed_behind(listed, i, budget_type));
        } else {
            assert(paid.budget(budget_type) == state.budget(budget_type));
            assert(listed_behind(listed, i, budget_type) == listed_behind(
                listed,
                i + 1,
                budget_type,
            )) by {
                if listed_behind(listed, i, budget_type) {
                    let j = choose|j: int| i <= j < listed.len() && listed[j] == budget_type;
                    assert(i + 1 <= j);
                }
                if listed_behind(listed, i + 1, budget_type) {
                    let j = choose|j: int| i + 1 <= j < listed.len() && listed[j] == budget_type;
                    assert(i <= j);
                }
            }
        }
    }
}

/// The automatic payments of a budget that are due at a block are planned again for one
/// period later, whether or not the budget could pay every recipient, and the plan of a
/// budget that is not due stays as it is. No reward is lost by the payments: every record is
/// left untouched or paid, and what its recipient was not paid is kept in it as unpaid.
pub proof fn lemma_due_payments_are_planned_again(state: State, now: u64, budget_type: u64)
    requires
        state.inv(),
    ensures
        ({
            let after = state.try_pay_reward(now);
            &&& after.recipients.len() == state.recipients.len()
            &&& forall|k: int|
                0 <= k < state.recipients.len() ==> paid_at(
                    state.recipients[k],
                    #[trigger] after.recipients[k],
                    now,
                )
            &&& match state.budget(budget_type).auto_payment {
                Some(planned) if planned.next_auto_payment == now => after.budget(
                    budget_type,
                ).auto_payment == Some(
                    BudgetAutoPayment {
                        period: planned.period,
                        next_auto_payment: saturate(now + planned.period),
                    },
                ),
                _ => after.budget(budget_type) == state.budget(budget_type),
            }
        }),
{
    let listed = state.active_budget_auto_payments;
    lemma_listed_payments_are_planned(state, now, listed, 0, budget_type);
    if state.budget(budget_type).auto_payment is Some {
        assert(listed.contains(budget_type));
        let j = choose|j: int| 0 <= j < listed.len() && listed[j] == budget_type;
        assert(listed_behind(listed, 0, budget_type));
    }
}

// The run after the recipient at `i` was paid; meaningful where it has an account and the
// ledger takes the payment.
spec fn step_of(run: PaymentRun, budget_type: u64, now: u64, i: int) -> PaymentRun {
    let recipient = run.recipients[i].recipient;
    let reward = current_reward(recipient, now);
    let payment = if run.remaining >= reward {
        reward
    } else {
        run.remaining
    };
    PaymentRun {
        recipients: run.recipients.update(
            i,
            crate::spending_budget::RecipientRecord {
                budget_type,
                recipient: RewardRecipient {
                    last_payment_block: now,
                    unpaid_reward: (reward - payment) as u64,
                    ..recipient
                },
            },
        ),
        balances: crate::ledger::credit(
            run.balances,
            crate::ledger::AccountId::External(recipient.auto_payment_account_id->Some_0),
            payment as nat,
        ),
        total_issuance: (run.total_issuance + payment) as nat,
        remaining: (run.remaining - payment) as u64,
    }
}

} // verus!
