//! The proofs that the operations of the spending budget engine keep the invariant of its
//! state.

use crate::spending_budget::{Budget, RecipientRecord};
use crate::spending_budget::state::{
    distinct_recipients, in_budget, listed_once, other_than, recipient_at, recipients_inv,
    schedules_inv, State,
};
use crate::sums::{lemma_sum_push, lemma_sum_remove, lemma_sum_update, sum_by};
use vstd::prelude::*;

verus! {

/// Storing a budget keeps the schedules in order where each list then names the budget's type
/// exactly if the stored budget has a plan of that kind, and names every other type as it did.
pub proof fn lemma_schedules_follow(
    budgets: Map<u64, Budget>,
    refills: Seq<u64>,
    auto_payments: Seq<u64>,
    limit: u64,
    budget_type: u64,
    budget: Budget,
    new_refills: Seq<u64>,
    new_auto_payments: Seq<u64>,
)
    requires
        schedules_inv(budgets, refills, auto_payments, limit),
        listed_once(new_refills),
        new_refills.len() <= limit,
        forall|other: u64| #[trigger]
            new_refills.contains(other) <==> if other == budget_type {
                budget.refill is Some
            } else {
                refills.contains(other)
            },
        listed_once(new_auto_payments),
        forall|other: u64| #[trigger]
            new_auto_payments.contains(other) <==> if other == budget_type {
                budget.auto_payment is Some
            } else {
                auto_payments.contains(other)
            },
    ensures
        schedules_inv(budgets.insert(budget_type, budget), new_refills, new_auto_payments, limit),
{
    let stored = budgets.insert(budget_type, budget);
    assert forall|other: u64| #[trigger]
        new_refills.contains(other) <==> stored.contains_key(other)
            && stored[other].refill is Some by {
        if other != budget_type {
            assert(stored.contains_key(other) == budgets.contains_key(other));
            assert(refills.contains(other) <==> budgets.contains_key(other)
                && budgets[other].refill is Some);
        }
    }
    assert forall|other: u64| #[trigger]
        new_auto_payments.contains(other) <==> stored.contains_key(other)
            && stored[other].auto_payment is Some by {
        if other != budget_type {
            assert(stored.contains_key(other) == budgets.contains_key(other));
            assert(auto_payments.contains(other) <==> budgets.contains_key(other)
                && budgets[other].auto_payment is Some);
        }
    }
}

/// Storing a budget that has a refill, or an automatic payment, exactly where it had one
/// keeps the schedules in order.
pub proof fn lemma_schedules_keep(
    budgets: Map<u64, Budget>,
    refills: Seq<u64>,
    auto_payments: Seq<u64>,
    limit: u64,
    budget_type: u64,
    budget: Budget,
)
    requires
        schedules_inv(budgets, refills, auto_payments, limit),
        budget.refill is Some <==> budgets.contains_key(budget_type)
            && budgets[budget_type].refill is Some,
        budget.auto_payment is Some <==> budgets.contains_key(budget_type)
            && budgets[budget_type].auto_payment is Some,
    ensures
        schedules_inv(budgets.insert(budget_type, budget), refills, auto_payments, limit),
{
    lemma_schedules_follow(
        budgets,
        refills,
        auto_payments,
        limit,
        budget_type,
        budget,
        refills,
        auto_payments,
    );
}

/// A list with one more budget type, which was not on it, lists what it listed and the new
/// one, each once.
pub proof fn lemma_listed_push(listed: Seq<u64>, budget_type: u64)
    requires
        listed_once(listed),
        !listed.contains(budget_type),
    ensures
        listed_once(listed.push(budget_type)),
        forall|other: u64| #[trigger]
            listed.push(budget_type).contains(other) <==> listed.contains(other) || other
                == budget_type,
{
    let longer = listed.push(budget_type);
    assert forall|i: int, j: int| 0 <= i < j < longer.len() implies longer[i] != longer[j] by {
        if j == listed.len() {
            assert(listed[i] == longer[i]);
            assert(listed.contains(longer[i]));
        } else {
            assert(listed[i] == longer[i] && listed[j] == longer[j]);
        }
    }
    assert forall|other: u64| #[trigger]
        longer.contains(other) <==> listed.contains(other) || other == budget_type by {
        if longer.contains(other) {
            let k = choose|k: int| 0 <= k < longer.len() && longer[k] == other;
            if k < listed.len() {
                assert(listed[k] == other);
            }
        }
        if listed.contains(other) {
            let k = choose|k: int| 0 <= k < listed.len() && listed[k] == other;
            assert(longer[k] == other);
        }
        if other == budget_type {
            assert(longer[listed.len() as int] == other);
        }
    }
}

/// A list without one budget type lists what it listed but that one, each once.
pub proof fn lemma_listed_without(listed: Seq<u64>, budget_type: u64)
    requires
        listed_once(listed),
    ensures
        listed_once(listed.filter(other_than(budget_type))),
        listed.filter(other_than(budget_type)).len() <= listed.len(),
        forall|other: u64| #[trigger]
            listed.filter(other_than(budget_type)).contains(other) <==> listed.contains(other)
                && other != budget_type,
    decreases listed.len(),
{
    reveal(Seq::filter);
    let kept = listed.filter(other_than(budget_type));
    if listed.len() > 0 {
        let front = listed.drop_last();
        let last = listed.last();
        assert forall|i: int, j: int| 0 <= i < j < front.len() implies front[i] != front[j] by {
            assert(front[i] == listed[i] && front[j] == listed[j]);
        }
        lemma_listed_without(front, budget_type);
        let kept_front = front.filter(other_than(budget_type));
        assert(!front.contains(last)) by {
            if front.contains(last) {
                let k = choose|k: int| 0 <= k < front.len() && front[k] == last;
                assert(listed[k] == listed[listed.len() - 1]);
            }
        }
        assert forall|other: u64| listed.contains(other) <==> front.contains(other) || other
            == last by {
            if listed.contains(other) {
                let k = choose|k: int| 0 <= k < listed.len() && listed[k] == other;
                if k < front.len() {
                    assert(front[k] == other);
                }
            }
            if front.contains(other) {
                let k = choose|k: int| 0 <= k < front.len() && front[k] == other;
                assert(listed[k] == other);
            }
            if other == last {
                assert(listed[listed.len() - 1] == other);
            }
        }
        if last != budget_type {
            assert(kept == kept_front.push(last));
            assert(!kept_front.contains(last));
            lemma_listed_push(kept_front, last);
        } else {
            assert(kept == kept_front);
        }
    }
}

/// Replacing a record by one of the same user in the same budget keeps the recipients in
/// order, and the number of recipients of every budget.
pub proof fn lemma_recipients_replaced(
    recipients: Seq<RecipientRecord>,
    limit: u64,
    i: int,
    record: RecipientRecord,
)
    requires
        recipients_inv(recipients, limit),
        0 <= i < recipients.len(),
        record.budget_type == recipients[i].budget_type,
        record.recipient.user_id == recipients[i].recipient.user_id,
    ensures
        recipients_inv(recipients.update(i, record), limit),
        forall|budget_type: u64| #[trigger]
            sum_by(recipients.update(i, record), in_budget(budget_type)) == sum_by(
                recipients,
                in_budget(budget_type),
            ),
{
    let replaced = recipients.update(i, record);
    assert forall|budget_type: u64| #[trigger]
        sum_by(replaced, in_budget(budget_type)) == sum_by(recipients, in_budget(budget_type)) by {
        lemma_sum_update(recipients, i, record, in_budget(budget_type));
    }
    assert forall|budget_type: u64| #[trigger]
        sum_by(replaced, in_budget(budget_type)) <= limit by {
        assert(sum_by(recipients, in_budget(budget_type)) <= limit);
    }
    assert(distinct_recipients(replaced)) by {
        assert forall|a: int, b: int| 0 <= a < b < replaced.len() implies !(
        #[trigger] replaced[a].budget_type == #[trigger] replaced[b].budget_type
            && replaced[a].recipient.user_id == replaced[b].recipient.user_id) by {
            assert(!(recipients[a].budget_type == recipients[b].budget_type
                && recipients[a].recipient.user_id == recipients[b].recipient.user_id));
        }
    }
}

/// Recording a user that the budget has no record of, where the budget has room, keeps the
/// recipients in order.
pub proof fn lemma_recipients_added(
    recipients: Seq<RecipientRecord>,
    limit: u64,
    record: RecipientRecord,
)
    requires
        recipients_inv(recipients, limit),
        forall|j: int|
            0 <= j < recipients.len() ==> !recipient_at(
                recipients,
                j,
                record.budget_type,
                record.recipient.user_id,
            ),
        sum_by(recipients, in_budget(record.budget_type)) < limit,
    ensures
        recipients_inv(recipients.push(record), limit),
{
    let added = recipients.push(record);
    assert forall|budget_type: u64| #[trigger]
        sum_by(added, in_budget(budget_type)) <= limit by {
        lemma_sum_push(recipients, record, in_budget(budget_type));
        assert(sum_by(recipients, in_budget(budget_type)) <= limit);
    }
    assert forall|a: int, b: int| 0 <= a < b < added.len() implies !(
    #[trigger] added[a].budget_type == #[trigger] added[b].budget_type
        && added[a].recipient.user_id == added[b].recipient.user_id) by {
        if b == recipients.len() {
            assert(!recipient_at(recipients, a, record.budget_type, record.recipient.user_id));
        } else {
            assert(!(recipients[a].budget_type == recipients[b].budget_type
                && recipients[a].recipient.user_id == recipients[b].recipient.user_id));
        }
    }
}

/// Erasing a record keeps the recipients in order.
pub proof fn lemma_recipients_erased(recipients: Seq<RecipientRecord>, limit: u64, i: int)
    requires
        recipients_inv(recipients, limit),
        0 <= i < recipients.len(),
    ensures
        recipients_inv(recipients.remove(i), limit),
{
    let erased = recipients.remove(i);
    assert forall|budget_type: u64| #[trigger]
        sum_by(erased, in_budget(budget_type)) <= limit by {
        lemma_sum_remove(recipients, i, in_budget(budget_type));
        assert(sum_by(recipients, in_budget(budget_type)) <= limit);
    }
    assert forall|a: int, b: int| 0 <= a < b < erased.len() implies !(
    #[trigger] erased[a].budget_type == #[trigger] erased[b].budget_type
        && erased[a].recipient.user_id == erased[b].recipient.user_id) by {
        let ka = if a < i {
            a
        } else {
            a + 1
        };
        let kb = if b < i {
            b
        } else {
            b + 1
        };
        assert(erased[a] == recipients[ka] && erased[b] == recipients[kb]);
        assert(!(recipients[ka].budget_type == recipients[kb].budget_type
            && recipients[ka].recipient.user_id == recipients[kb].recipient.user_id));
    }
}

/// The position of a user's record is the only one that holds it.
pub proof fn lemma_recipient_position(state: State, i: int, budget_type: u64, user_id: u64)
    requires
        distinct_recipients(state.recipients),
        recipient_at(state.recipients, i, budget_type, user_id),
    ensures
        state.has_recipient(budget_type, user_id),
        state.recipient_position(budget_type, user_id) == i,
{
    let p = state.recipient_position(budget_type, user_id);
    assert(recipient_at(state.recipients, p, budget_type, user_id));
    if p < i {
        assert(!(state.recipients[p].budget_type == state.recipients[i].budget_type
            && state.recipients[p].recipient.user_id == state.recipients[i].recipient.user_id));
    } else if i < p {
        assert(!(state.recipients[i].budget_type == state.recipients[p].budget_type
            && state.recipients[i].recipient.user_id == state.recipients[p].recipient.user_id));
    }
}

} // verus!
