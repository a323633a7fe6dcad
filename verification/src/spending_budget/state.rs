//! The model of the spending budget engine: its state, its invariant, and for every operation
//! what it returns and the state that it leaves.

use crate::authorization::is_bound;
use crate::common::{blocks_between, saturate, signer_of, RawOrigin};
use crate::ledger::{credit, has_room, AccountId};
use crate::spending_budget::{
    Budget, BudgetAutoPayment, BudgetRefill, Error, Event, RecipientRecord, RewardRecipient,
};
use vstd::prelude::*;

verus! {

/// What the recipient has earned and not been paid at block `now`: the checkpointed amount and
/// the rate for every block since the checkpoint.
pub open spec fn accrued_reward(recipient: RewardRecipient, now: u64) -> nat {
    (recipient.unpaid_reward + blocks_between(recipient.last_payment_block, now)
        * recipient.reward_per_block) as nat
}

/// The accrued reward as a balance, held at the largest balance.
pub open spec fn current_reward(recipient: RewardRecipient, now: u64) -> u64 {
    saturate(accrued_reward(recipient, now) as int)
}

/// The part of `reward` that a budget holding `balance` can pay, and the part it cannot.
pub open spec fn split_reward(balance: u64, reward: u64) -> (u64, u64) {
    if reward <= balance {
        (reward, 0)
    } else {
        (balance, (reward - balance) as u64)
    }
}

/// The record at `i` is the one of `user_id` in the budget `budget_type`.
pub open spec fn recipient_at(
    recipients: Seq<RecipientRecord>,
    i: int,
    budget_type: u64,
    user_id: u64,
) -> bool {
    &&& 0 <= i < recipients.len()
    &&& recipients[i].budget_type == budget_type
    &&& recipients[i].recipient.user_id == user_id
}

/// No user is recorded twice in one budget.
pub open spec fn distinct_recipients(recipients: Seq<RecipientRecord>) -> bool {
    forall|i: int, j: int|
        0 <= i < j < recipients.len() ==> !(#[trigger] recipients[i].budget_type
            == #[trigger] recipients[j].budget_type && recipients[i].recipient.user_id
            == recipients[j].recipient.user_id)
}

/// One for a record of the budget `budget_type`, zero for any other.
pub open spec fn in_budget(budget_type: u64) -> spec_fn(RecipientRecord) -> nat {
    |record: RecipientRecord|
        if record.budget_type == budget_type {
            1nat
        } else {
            0nat
        }
}

/// No budget type is listed twice.
pub open spec fn listed_once(listed: Seq<u64>) -> bool {
    forall|i: int, j: int| 0 <= i < j < listed.len() ==> listed[i] != listed[j]
}

/// No user is recorded twice in one budget, and no budget has more recipients than `limit`.
pub open spec fn recipients_inv(recipients: Seq<RecipientRecord>, limit: u64) -> bool {
    &&& distinct_recipients(recipients)
    &&& forall|budget_type: u64| #[trigger]
        crate::sums::sum_by(recipients, in_budget(budget_type)) <= limit
}

/// The budgets that refill periodically are those that are listed for it, each once, and no
/// more than `limit` of them; the budgets that pay periodically are those that are listed for
/// it, each once.
pub open spec fn schedules_inv(
    budgets: Map<u64, Budget>,
    refills: Seq<u64>,
    auto_payments: Seq<u64>,
    limit: u64,
) -> bool {
    &&& listed_once(refills)
    &&& refills.len() <= limit
    &&& forall|budget_type: u64| #[trigger]
        refills.contains(budget_type) <==> budgets.contains_key(budget_type)
            && budgets[budget_type].refill is Some
    &&& listed_once(auto_payments)
    &&& forall|budget_type: u64| #[trigger]
        auto_payments.contains(budget_type) <==> budgets.contains_key(budget_type)
            && budgets[budget_type].auto_payment is Some
}

/// Holds of every budget type but `budget_type`.
pub open spec fn other_than(budget_type: u64) -> spec_fn(u64) -> bool {
    |listed: u64| listed != budget_type
}

/// The outcome of one run of automatic payments over the recipients of a budget.
pub struct PaymentRun {
    pub recipients: Seq<RecipientRecord>,
    pub balances: Map<AccountId, nat>,
    pub total_issuance: nat,
    /// What the budget still holds.
    pub remaining: u64,
}

/// Pays the recipients of `budget_type` from position `i` on, in storage order, each the smaller
/// of its accrued reward and what the budget still holds. The run ends at the first recipient
/// reached with nothing left in the budget, and at the first payment that the ledger refuses.
/// A recipient without a payment account is passed over.
pub open spec fn pay_from(run: PaymentRun, budget_type: u64, now: u64, i: int) -> PaymentRun
    decreases run.recipients.len() - i,
{
    if i < 0 || i >= run.recipients.len() || run.remaining == 0 {
        run
    } else if run.recipients[i].budget_type != budget_type {
        pay_from(run, budget_type, now, i + 1)
    } else {
        let recipient = run.recipients[i].recipient;
        let reward = current_reward(recipient, now);
        let payment = if run.remaining >= reward {
            reward
        } else {
            run.remaining
        };
        match recipient.auto_payment_account_id {
            None => pay_from(run, budget_type, now, i + 1),
            Some(account) => {
                if !has_room(run.balances, AccountId::External(account), payment as nat) {
                    run
                } else {
                    let paid = RecipientRecord {
                        budget_type,
                        recipient: RewardRecipient {
                            last_payment_block: now,
                            unpaid_reward: (reward - payment) as u64,
                            ..recipient
                        },
                    };
                    pay_from(
                        PaymentRun {
                            recipients: run.recipients.update(i, paid),
                            balances: credit(
                                run.balances,
                                AccountId::External(account),
                                payment as nat,
                            ),
                            total_issuance: (run.total_issuance + payment) as nat,
                            remaining: (run.remaining - payment) as u64,
                        },
                        budget_type,
                        now,
                        i + 1,
                    )
                }
            },
        }
    }
}

/// The record `after` is the record `before`, untouched or paid at block `now`: it is of the
/// same recipient in the same budget at the same rate, and what the recipient had earned by
/// `now` and was not paid is kept in it as unpaid.
pub open spec fn paid_at(before: RecipientRecord, after: RecipientRecord, now: u64) -> bool {
    ||| after == before
    ||| {
        &&& after.budget_type == before.budget_type
        &&& after.recipient == (RewardRecipient {
            last_payment_block: now,
            unpaid_reward: after.recipient.unpaid_reward,
            ..before.recipient
        })
        &&& after.recipient.unpaid_reward <= current_reward(before.recipient, now)
    }
}

/// Everything the budget engine keeps between calls.
pub struct State {
    /// The largest number of budgets that may refill periodically.
    pub max_refilling_budgets: u64,
    /// The largest number of reward recipients of one budget.
    pub max_budget_reward_recipients: u64,
    /// The budgets, by budget type.
    pub budgets: Map<u64, Budget>,
    /// The reward recipients of all budgets, in storage order.
    pub recipients: Seq<RecipientRecord>,
    /// The budget types that refill periodically.
    pub active_budget_refills: Seq<u64>,
    /// The budget types that pay their recipients periodically.
    pub active_budget_auto_payments: Seq<u64>,
    /// The account bound to each user id.
    pub members: Map<u64, u64>,
    /// What every account holds.
    pub balances: Map<AccountId, nat>,
    /// The sum of what all accounts hold.
    pub total_issuance: nat,
}

impl State {
    /// What holds of the state between calls.
    pub open spec fn inv(self) -> bool {
        &&& recipients_inv(self.recipients, self.max_budget_reward_recipients)
        &&& schedules_inv(
            self.budgets,
            self.active_budget_refills,
            self.active_budget_auto_payments,
            self.max_refilling_budgets,
        )
    }

    /// The budget of this type, or the empty budget where none was made.
    pub open spec fn budget(self, budget_type: u64) -> Budget {
        if self.budgets.contains_key(budget_type) {
            self.budgets[budget_type]
        } else {
            Budget { balance: 0, refill: None, auto_payment: None }
        }
    }

    /// Whether the user is a recipient of the budget.
    pub open spec fn has_recipient(self, budget_type: u64, user_id: u64) -> bool {
        exists|i: int| recipient_at(self.recipients, i, budget_type, user_id)
    }

    /// The position of the user's record; meaningful where the user is a recipient.
    pub open spec fn recipient_position(self, budget_type: u64, user_id: u64) -> int {
        choose|i: int| recipient_at(self.recipients, i, budget_type, user_id)
    }

    /// The record of `user_id` in the budget; meaningful where `has_recipient` holds.
    pub open spec fn recipient(self, budget_type: u64, user_id: u64) -> RewardRecipient {
        self.recipients[self.recipient_position(budget_type, user_id)].recipient
    }

    /// The number of recipients of the budget.
    pub open spec fn recipient_count(self, budget_type: u64) -> nat {
        crate::sums::sum_by(self.recipients, in_budget(budget_type))
    }

    /// Whether `account_id` is the account bound to the user.
    pub open spec fn is_member_account(self, user_id: u64, account_id: u64) -> bool {
        is_bound(self.members, user_id, account_id)
    }

    /// The state with the budget stored under the budget type.
    pub open spec fn with_budget(self, budget_type: u64, budget: Budget) -> State {
        State { budgets: self.budgets.insert(budget_type, budget), ..self }
    }

    /// The state with the record stored: in the place of the user's record where the budget has
    /// one, behind all records where it has none.
    pub open spec fn with_recipient(
        self,
        budget_type: u64,
        user_id: u64,
        recipient: RewardRecipient,
    ) -> State {
        let record = RecipientRecord { budget_type, recipient };
        if self.has_recipient(budget_type, user_id) {
            State {
                recipients: self.recipients.update(
                    self.recipient_position(budget_type, user_id),
                    record,
                ),
                ..self
            }
        } else {
            State { recipients: self.recipients.push(record), ..self }
        }
    }

    // ---- plain budgets ----

    /// The balance of the budget; zero where none was made.
    pub open spec fn get_balance(self, budget_type: u64) -> u64 {
        self.budget(budget_type).balance
    }

    /// Whether `amount` can be spent from the budget: it is not zero, and the budget exists and
    /// holds it.
    pub open spec fn can_spend(self, budget_type: u64, amount: u64) -> bool {
        &&& amount != 0
        &&& self.budgets.contains_key(budget_type)
        &&& self.budgets[budget_type].balance >= amount
    }

    /// The state after `amount` was spent: the budget holds that much less. Nothing changes where
    /// the amount cannot be spent.
    pub open spec fn spend_from_budget(self, budget_type: u64, amount: u64) -> State {
        if self.can_spend(budget_type, amount) {
            let budget = self.budgets[budget_type];
            self.with_budget(
                budget_type,
                Budget { balance: (budget.balance - amount) as u64, ..budget },
            )
        } else {
            self
        }
    }

    /// The state after the budget took `amount` more, up to the largest balance. A budget that did
    /// not exist is made by this, without a plan for refills or payments.
    pub open spec fn refill_budget(self, budget_type: u64, amount: u64) -> State {
        let budget = self.budget(budget_type);
        self.with_budget(
            budget_type,
            Budget { balance: saturate(budget.balance + amount), ..budget },
        )
    }

    /// The state after the balance of the budget was set to `amount`; the budget keeps its plans.
    /// A budget that did not exist is made by this, without a plan for refills or payments.
    pub open spec fn set_budget(self, budget_type: u64, amount: u64) -> State {
        self.with_budget(budget_type, Budget { balance: amount, ..self.budget(budget_type) })
    }

    // ---- recipients ----

    /// Whether the user can be registered: it is a recipient of the budget already, or the budget
    /// has room for one more.
    pub open spec fn can_add_recipient(self, budget_type: u64, user_id: u64) -> bool {
        self.has_recipient(budget_type, user_id) || self.max_budget_reward_recipients
            != self.recipient_count(budget_type)
    }

    /// The state after the user was registered at block `now` to earn `reward_per_block`: under a
    /// new record that is owed nothing, or under its own record, in which what it had earned by
    /// `now` is kept as unpaid. Nothing changes where the budget has no room for another
    /// recipient.
    pub open spec fn add_recipient(
        self,
        now: u64,
        budget_type: u64,
        user_id: u64,
        reward_per_block: u64,
    ) -> State {
        if !self.can_add_recipient(budget_type, user_id) {
            self
        } else if self.has_recipient(budget_type, user_id) {
            let recipient = self.recipient(budget_type, user_id);
            self.with_recipient(
                budget_type,
                user_id,
                RewardRecipient {
                    last_payment_block: now,
                    reward_per_block,
                    unpaid_reward: current_reward(recipient, now),
                    ..recipient
                },
            )
        } else {
            self.with_recipient(
                budget_type,
                user_id,
                RewardRecipient {
                    last_payment_block: now,
                    reward_per_block,
                    unpaid_reward: 0,
                    pull_reward_enabled: false,
                    auto_payment_account_id: None,
                    user_id,
                },
            )
        }
    }

    /// The state after the user was registered as `add_recipient` does it, with a record that lets
    /// it withdraw its reward to `account_id`. Nothing changes where the budget has no room for
    /// another recipient.
    pub open spec fn add_pull_recipient(
        self,
        now: u64,
        budget_type: u64,
        user_id: u64,
        reward_per_block: u64,
        account_id: u64,
    ) -> State {
        if !self.can_add_recipient(budget_type, user_id) {
            self
        } else {
            let added = self.add_recipient(now, budget_type, user_id, reward_per_block);
            added.with_recipient(
                budget_type,
                user_id,
                RewardRecipient {
                    pull_reward_enabled: true,
                    auto_payment_account_id: Some(account_id),
                    ..added.recipient(budget_type, user_id)
                },
            )
        }
    }

    /// The user's record, where the user is a recipient of the budget.
    pub open spec fn get_recipient(
        self,
        budget_type: u64,
        user_id: u64,
    ) -> Option<RewardRecipient> {
        if self.has_recipient(budget_type, user_id) {
            Some(self.recipient(budget_type, user_id))
        } else {
            None
        }
    }

    /// The state after the user stopped earning at block `now`: its record stays, with what it had
    /// earned by then kept as unpaid and a reward of zero per block. Nothing changes where the
    /// user is no recipient of the budget.
    pub open spec fn remove_recipient(self, now: u64, budget_type: u64, user_id: u64) -> State {
        if self.has_recipient(budget_type, user_id) {
            let recipient = self.recipient(budget_type, user_id);
            self.with_recipient(
                budget_type,
                user_id,
                RewardRecipient {
                    last_payment_block: now,
                    reward_per_block: 0,
                    unpaid_reward: current_reward(recipient, now),
                    ..recipient
                },
            )
        } else {
            self
        }
    }

    /// The state after the user's record was erased, and with it what the user was owed. Nothing
    /// changes where the user is no recipient of the budget.
    pub open spec fn remove_recipient_clear_reward(self, budget_type: u64, user_id: u64) -> State {
        if self.has_recipient(budget_type, user_id) {
            State {
                recipients: self.recipients.remove(self.recipient_position(budget_type, user_id)),
                ..self
            }
        } else {
            self
        }
    }

    // ---- periodic refill ----

    /// Whether a periodic refill can be planned for the budget: it exists, and it refills
    /// already or the list of refilling budgets has room.
    pub open spec fn can_set_periodic_refill(self, budget_type: u64) -> bool {
        &&& self.budgets.contains_key(budget_type)
        &&& !(self.budgets[budget_type].refill is None && self.active_budget_refills.len()
            == self.max_refilling_budgets)
    }

    /// The state after a refill of the budget was planned at block `now`: `amount` every `period`
    /// blocks, first at `now + period`, with the budget listed among those that refill. For a
    /// budget that has such a plan an amount of zero ends it and takes the budget off the list.
    /// Nothing changes where no refill can be planned.
    pub open spec fn set_budget_periodic_refill(
        self,
        now: u64,
        budget_type: u64,
        period: u64,
        amount: u64,
    ) -> State {
        if !self.can_set_periodic_refill(budget_type) {
            self
        } else {
            let budget = self.budgets[budget_type];
            if budget.refill is Some && amount == 0 {
                State {
                    budgets: self.budgets.insert(budget_type, Budget { refill: None, ..budget }),
                    active_budget_refills: self.active_budget_refills.filter(
                        other_than(budget_type),
                    ),
                    ..self
                }
            } else {
                State {
                    budgets: self.budgets.insert(
                        budget_type,
                        Budget {
                            refill: Some(
                                BudgetRefill {
                                    period,
                                    amount,
                                    next_refill: saturate(now + period),
                                },
                            ),
                            ..budget
                        },
                    ),
                    active_budget_refills: if budget.refill is None {
                        self.active_budget_refills.push(budget_type)
                    } else {
                        self.active_budget_refills
                    },
                    ..self
                }
            }
        }
    }

    /// Whether periodic payments can be planned for the budget: it exists.
    pub open spec fn can_set_auto_payment(self, budget_type: u64) -> bool {
        self.budgets.contains_key(budget_type)
    }

    /// The state after payments of the budget were planned at block `now`: every `period` blocks,
    /// first at `now + period`, with the budget listed among those that pay. Nothing changes where
    /// the budget does not exist.
    pub open spec fn set_budget_auto_payment(
        self,
        now: u64,
        budget_type: u64,
        period: u64,
    ) -> State {
        if !self.can_set_auto_payment(budget_type) {
            self
        } else {
            let budget = self.budgets[budget_type];
            State {
                budgets: self.budgets.insert(
                    budget_type,
                    Budget {
                        auto_payment: Some(
                            BudgetAutoPayment {
                                period,
                                next_auto_payment: saturate(now + period),
                            },
                        ),
                        ..budget
                    },
                ),
                active_budget_auto_payments: if budget.auto_payment is None {
                    self.active_budget_auto_payments.push(budget_type)
                } else {
                    self.active_budget_auto_payments
                },
                ..self
            }
        }
    }

    // ---- scheduled maintenance ----

    /// The refill of one budget, where it is due at `now`.
    pub open spec fn refill_if_due(self, now: u64, budget_type: u64) -> State {
        let budget = self.budget(budget_type);
        match budget.refill {
            Some(refill) if refill.next_refill == now => self.with_budget(
                budget_type,
                Budget {
                    balance: saturate(budget.balance + refill.amount),
                    refill: Some(
                        BudgetRefill { next_refill: saturate(now + refill.period), ..refill },
                    ),
                    ..budget
                },
            ),
            _ => self,
        }
    }

    /// The refills of the listed budgets from position `i` on, in the order of the list.
    pub open spec fn refill_from(self, now: u64, listed: Seq<u64>, i: int) -> State
        decreases listed.len() - i,
    {
        if i < 0 || i >= listed.len() {
            self
        } else {
            self.refill_if_due(now, listed[i]).refill_from(now, listed, i + 1)
        }
    }

    /// The state after the refills that are due at `now`.
    pub open spec fn try_refill_budgets(self, now: u64) -> State {
        self.refill_from(now, self.active_budget_refills, 0)
    }

    /// One run of automatic payments of the budget, with what it leaves in the budget and the
    /// block of the next run.
    pub open spec fn auto_payment_budget(
        self,
        now: u64,
        budget_type: u64,
        budget: Budget,
        auto_payment: BudgetAutoPayment,
    ) -> State {
        let run = pay_from(
            PaymentRun {
                recipients: self.recipients,
                balances: self.balances,
                total_issuance: self.total_issuance,
                remaining: budget.balance,
            },
            budget_type,
            now,
            0,
        );
        State {
            recipients: run.recipients,
            balances: run.balances,
            total_issuance: run.total_issuance,
            budgets: self.budgets.insert(
                budget_type,
                Budget {
                    balance: run.remaining,
                    refill: budget.refill,
                    auto_payment: Some(
                        BudgetAutoPayment {
                            next_auto_payment: saturate(
                                auto_payment.next_auto_payment + auto_payment.period,
                            ),
                            ..auto_payment
                        },
                    ),
                },
            ),
            ..self
        }
    }

    /// The automatic payments of one budget, where they are due at `now`.
    pub open spec fn pay_if_due(self, now: u64, budget_type: u64) -> State {
        let budget = self.budget(budget_type);
        match budget.auto_payment {
            Some(auto_payment) if auto_payment.next_auto_payment == now => self.auto_payment_budget(
                now,
                budget_type,
                budget,
                auto_payment,
            ),
            _ => self,
        }
    }

    /// The automatic payments of the listed budgets from position `i` on.
    pub open spec fn pay_listed_from(self, now: u64, listed: Seq<u64>, i: int) -> State
        decreases listed.len() - i,
    {
        if i < 0 || i >= listed.len() {
            self
        } else {
            self.pay_if_due(now, listed[i]).pay_listed_from(now, listed, i + 1)
        }
    }

    /// The state after the automatic payments that are due at `now`.
    pub open spec fn try_pay_reward(self, now: u64) -> State {
        self.pay_listed_from(now, self.active_budget_auto_payments, 0)
    }

    /// The state after the maintenance at the end of block `now`: refills first, payments then.
    pub open spec fn on_finalize(self, now: u64) -> State {
        self.try_refill_budgets(now).try_pay_reward(now)
    }

    /// The state after the maintenance of every block from `current_block` up to, and not
    /// including, `target_block`.
    pub open spec fn run_to_block(self, current_block: u64, target_block: u64) -> State
        decreases target_block - current_block,
    {
        if current_block >= target_block {
            self
        } else {
            self.on_finalize(current_block).run_to_block(
                (current_block + 1) as u64,
                target_block,
            )
        }
    }

    // ---- reward withdrawal ----

    /// The account of the caller, where the caller is signed and bound to `user_id`.
    pub open spec fn ensure_user_membership(
        self,
        origin: RawOrigin,
        user_id: u64,
    ) -> Result<u64, Error> {
        match signer_of(origin) {
            None => Err(Error::BadOrigin),
            Some(account_id) => if self.is_member_account(user_id, account_id) {
                Ok(account_id)
            } else {
                Err(Error::BudgetUserIdNotMatchAccount)
            },
        }
    }

    /// Whether the caller may withdraw now, and if so the account to pay, the recipient's record
    /// and the reward due.
    pub open spec fn can_withdraw_reward(
        self,
        now: u64,
        origin: RawOrigin,
        budget_type: u64,
        user_id: u64,
    ) -> Result<(u64, RewardRecipient, u64), Error> {
        match self.ensure_user_membership(origin, user_id) {
            Err(e) => Err(e),
            Ok(account_id) => {
                if !self.has_recipient(budget_type, user_id) {
                    Err(Error::NotRewardRecipient)
                } else {
                    let recipient = self.recipient(budget_type, user_id);
                    let reward = current_reward(recipient, now);
                    if !recipient.pull_reward_enabled {
                        Err(Error::NotPullRewardRecipient)
                    } else if reward == 0 {
                        Err(Error::NoRewardNow)
                    } else if !self.budgets.contains_key(budget_type) {
                        Err(Error::InvalidBudget)
                    } else if self.budgets[budget_type].balance == 0 {
                        Err(Error::BudgetDepleted)
                    } else {
                        Ok((account_id, recipient, reward))
                    }
                }
            },
        }
    }

    /// The state after `amount` was paid to `account_id` out of the budget and the recipient was
    /// left with `unpaid_remaining`.
    pub open spec fn pay_out(
        self,
        now: u64,
        budget_type: u64,
        user_id: u64,
        account_id: u64,
        recipient: RewardRecipient,
        amount: u64,
        unpaid_remaining: u64,
    ) -> State {
        let budget = self.budget(budget_type);
        State {
            balances: credit(self.balances, AccountId::External(account_id), amount as nat),
            total_issuance: (self.total_issuance + amount) as nat,
            budgets: self.budgets.insert(
                budget_type,
                Budget { balance: (budget.balance - amount) as u64, ..budget },
            ),
            ..self
        }.with_recipient(
            budget_type,
            user_id,
            RewardRecipient {
                last_payment_block: now,
                unpaid_reward: unpaid_remaining,
                ..recipient
            },
        )
    }

    /// What a call to withdraw the reward returns.
    pub open spec fn withdraw_reward_result(
        self,
        now: u64,
        origin: RawOrigin,
        budget_type: u64,
        user_id: u64,
    ) -> Result<Event, Error> {
        match self.can_withdraw_reward(now, origin, budget_type, user_id) {
            Err(e) => Err(e),
            Ok((account_id, recipient, reward)) => {
                let (available, missing) = split_reward(
                    self.budget(budget_type).balance,
                    reward,
                );
                if !has_room(
                    self.balances,
                    AccountId::External(account_id),
                    available as nat,
                ) {
                    Err(Error::RewardPaymentFail)
                } else if missing > 0 {
                    Ok(Event::RewardPartialWithdrawal(user_id, account_id))
                } else {
                    Ok(Event::RewardWithdrawal(user_id, account_id))
                }
            },
        }
    }

    /// The state that a call to withdraw the reward leaves.
    pub open spec fn withdraw_reward(
        self,
        now: u64,
        origin: RawOrigin,
        budget_type: u64,
        user_id: u64,
    ) -> State {
        if self.withdraw_reward_result(now, origin, budget_type, user_id) is Ok {
            let (account_id, recipient, reward) = self.can_withdraw_reward(
                now,
                origin,
                budget_type,
                user_id,
            )->Ok_0;
            let (available, missing) = split_reward(self.budget(budget_type).balance, reward);
            self.pay_out(now, budget_type, user_id, account_id, recipient, available, missing)
        } else {
            self
        }
    }
}

} // verus!
