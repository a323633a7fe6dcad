//! The spending budget engine: budgets, their periodic refills, and the rewards that their
//! recipients accrue by the block.

pub mod laws;
pub mod proofs;
pub mod state;

use crate::authorization::Registry;
use crate::common::{ensure_signed, BadOrigin, RawOrigin};
use crate::ledger::{AccountId, Ledger};
use crate::spending_budget::proofs::{
    lemma_listed_push, lemma_listed_without, lemma_recipient_position, lemma_recipients_added,
    lemma_recipients_erased, lemma_recipients_replaced, lemma_schedules_follow,
    lemma_schedules_keep,
};
use crate::spending_budget::state::{
    current_reward, in_budget, other_than, pay_from, recipient_at, split_reward, PaymentRun,
    State,
};
use crate::sums::sum_by;
use std::collections::HashMap;
use vstd::prelude::*;

verus! {

broadcast use vstd::std_specs::hash::group_hash_axioms;

/// Settings for budget periodic refill.
#[derive(PartialEq, Eq, Structural, Debug, Default, Clone, Copy)]
pub struct BudgetRefill {
    pub period: u64,
    pub amount: u64,
    pub next_refill: u64,
}

/// Settings for budget automatic payments.
#[derive(PartialEq, Eq, Structural, Debug, Default, Clone, Copy)]
pub struct BudgetAutoPayment {
    pub period: u64,
    pub next_auto_payment: u64,
}

/// Generic budget representation.
#[derive(PartialEq, Eq, Debug, Default, Clone, Copy)]
pub struct Budget {
    pub balance: u64,
    pub refill: Option<BudgetRefill>,
    pub auto_payment: Option<BudgetAutoPayment>,
}

/// Recipient of budget reward.
#[derive(PartialEq, Eq, Debug, Default, Clone, Copy)]
pub struct RewardRecipient {
    pub last_payment_block: u64,
    pub reward_per_block: u64,
    pub unpaid_reward: u64,
    pub pull_reward_enabled: bool,
    pub auto_payment_account_id: Option<u64>,
    pub user_id: u64,
}

/// A recipient with the budget it belongs to, as the engine stores it.
#[derive(PartialEq, Eq, Debug, Default, Clone, Copy)]
pub struct RecipientRecord {
    pub budget_type: u64,
    pub recipient: RewardRecipient,
}

/// Budget errors.
#[derive(PartialEq, Eq, Structural, Debug, Clone, Copy)]
pub enum Error {
    /// Origin is invalid.
    BadOrigin,
    /// Budget is depleted, no reward can be withdrawn.
    BudgetDepleted,
    /// Invalid membership.
    BudgetUserIdNotMatchAccount,
    /// Reward transfer failed.
    RewardPaymentFail,
    /// Invalid reward recipient.
    NotRewardRecipient,
    /// Reward recipient can't withdraw reward by themselves.
    NotPullRewardRecipient,
    /// The given recipient has no reward accumulated now.
    NoRewardNow,
    /// The reward payment is requested from an invalid budget.
    InvalidBudget,
}

/// What a successful call reports: the user and the account that was paid.
#[derive(PartialEq, Eq, Structural, Debug, Clone, Copy)]
pub enum Event {
    /// The whole reward was paid to recipient.
    RewardWithdrawal(u64, u64),
    /// The reward was paid to the recipient only partially.
    RewardPartialWithdrawal(u64, u64),
}

/// The budget engine: budgets, their reward recipients, the schedules of refills and of
/// automatic payments, the members and the ledger that rewards are paid into.
pub struct Module {
    max_refilling_budgets: u64,
    max_budget_reward_recipients: u64,
    budgets: HashMap<u64, Budget>,
    recipients: Vec<RecipientRecord>,
    active_budget_refills: Vec<u64>,
    active_budget_auto_payments: Vec<u64>,
    members: Registry,
    ledger: Ledger,
}

impl View for Module {
    type V = State;

    closed spec fn view(&self) -> State {
        State {
            max_refilling_budgets: self.max_refilling_budgets,
            max_budget_reward_recipients: self.max_budget_reward_recipients,
            budgets: self.budgets@,
            recipients: self.recipients@,
            active_budget_refills: self.active_budget_refills@,
            active_budget_auto_payments: self.active_budget_auto_payments@,
            members: self.members@,
            balances: self.ledger@,
            total_issuance: self.ledger.total_issuance(),
        }
    }
}

impl Module {
    /// The engine's own invariant; it implies the invariant of the state.
    pub closed spec fn wf(&self) -> bool {
        &&& self.ledger.wf()
        &&& self@.inv()
    }

    /// What `wf` gives to a caller.
    pub proof fn lemma_wf_implies_inv(&self)
        requires
            self.wf(),
        ensures
            self@.inv(),
    {
    }

    /// An engine without budgets, recipients or members, with the two limits given.
    pub fn new(max_refilling_budgets: u64, max_budget_reward_recipients: u64) -> (module: Module)
        ensures
            module.wf(),
            module@.max_refilling_budgets == max_refilling_budgets,
            module@.max_budget_reward_recipients == max_budget_reward_recipients,
            module@.budgets == Map::<u64, Budget>::empty(),
            module@.recipients == Seq::<RecipientRecord>::empty(),
            module@.active_budget_refills == Seq::<u64>::empty(),
            module@.active_budget_auto_payments == Seq::<u64>::empty(),
            module@.members == Map::<u64, u64>::empty(),
            module@.total_issuance == 0,
            forall|who: AccountId| module@.balances[who] == 0,
    {
        let ledger = Ledger::new();
        Module {
            max_refilling_budgets,
            max_budget_reward_recipients,
            budgets: HashMap::new(),
            recipients: Vec::new(),
            active_budget_refills: Vec::new(),
            active_budget_auto_payments: Vec::new(),
            members: Registry::new(),
            ledger,
        }
    }

    /// Binds `user_id` to `account_id`, in place of any account it was bound to.
    pub fn set_member_account(&mut self, user_id: u64, account_id: u64)
        requires
            old(self).wf(),
        ensures
            final(self).wf(),
            final(self)@ == (State {
                members: old(self)@.members.insert(user_id, account_id),
                ..old(self)@
            }),
    {
        self.members.bind(user_id, account_id);
    }

    /// Whether `account_id` is the account bound to `user_id`.
    pub fn is_member_account(&self, user_id: u64, account_id: u64) -> (bound: bool)
        ensures
            bound == self@.is_member_account(user_id, account_id),
    {
        self.members.is_bound(user_id, account_id)
    }

    /// What the account holds.
    pub fn free_balance(&self, account_id: u64) -> (balance: u64)
        requires
            self.wf(),
        ensures
            balance == self@.balances[AccountId::External(account_id)],
    {
        self.ledger.free_balance(AccountId::External(account_id))
    }

    /// The budget of this type, or the empty budget where none was made.
    pub fn budgets(&self, budget_type: u64) -> (budget: Budget)
        ensures
            budget == self@.budget(budget_type),
    {
        match self.budgets.get(&budget_type) {
            Some(budget) => *budget,
            None => Budget { balance: 0, refill: None, auto_payment: None },
        }
    }

    // Stores a budget that has a refill, and an automatic payment, exactly where the stored
    // budget of this type has one.
    fn put_budget(&mut self, budget_type: u64, budget: Budget)
        requires
            old(self).wf(),
            budget.refill is Some <==> old(self)@.budget(budget_type).refill is Some,
            budget.auto_payment is Some <==> old(self)@.budget(budget_type).auto_payment is Some,
        ensures
            final(self).wf(),
            final(self)@ == old(self)@.with_budget(budget_type, budget),
    {
        proof {
            lemma_schedules_keep(
                self@.budgets,
                self@.active_budget_refills,
                self@.active_budget_auto_payments,
                self@.max_refilling_budgets,
                budget_type,
                budget,
            );
        }
        self.budgets.insert(budget_type, budget);
    }

    /// Whether a budget of this type was made.
    pub fn has_budget(&self, budget_type: u64) -> (present: bool)
        ensures
            present == self@.budgets.contains_key(budget_type),
    {
        self.budgets.contains_key(&budget_type)
    }

    /// The budget types that refill periodically.
    pub fn active_budget_refills(&self) -> (listed: Vec<u64>)
        ensures
            listed@ == self@.active_budget_refills,
    {
        self.active_budget_refills.clone()
    }

    /// The budget types that pay their recipients periodically.
    pub fn active_budget_auto_payments(&self) -> (listed: Vec<u64>)
        ensures
            listed@ == self@.active_budget_auto_payments,
    {
        self.active_budget_auto_payments.clone()
    }
}

/// Budget controller facilitating access to budget operations.
#[derive(PartialEq, Eq, Structural, Debug, Default, Clone, Copy)]
pub struct BudgetController {
    budget_type: u64,
}

impl BudgetController {
    /// The type of the budget that this controller speaks for.
    pub closed spec fn spec_budget_type(&self) -> u64 {
        self.budget_type
    }
}

impl From<(u64, )> for BudgetController {
    fn from(from: (u64, )) -> (controller: BudgetController) {
        BudgetController { budget_type: from.0 }
    }
}

impl vstd::std_specs::convert::FromSpecImpl<(u64, )> for BudgetController {
    open spec fn obeys_from_spec() -> bool {
        true
    }

    closed spec fn from_spec(from: (u64, )) -> BudgetController {
        BudgetController { budget_type: from.0 }
    }
}

/// The trait of basic budget operations.
pub trait BudgetControllerTrait {
    /// The type of the budget that the controller speaks for.
    spec fn budget_type(&self) -> u64;

    /// Get budget's current balance; zero where no budget of the type was made.
    fn get_balance(&self, module: &Module) -> (balance: u64)
        requires
            module.wf(),
        ensures
            balance == module@.get_balance(self.budget_type()),
    ;

    /// Decrease budget's balance by `amount`, where it is not zero and the budget holds it.
    fn spend_from_budget(&self, module: &mut Module, amount: &u64) -> (spent: bool)
        requires
            old(module).wf(),
        ensures
            final(module).wf(),
            spent == old(module)@.can_spend(self.budget_type(), *amount),
            final(module)@ == old(module)@.spend_from_budget(self.budget_type(), *amount),
    ;

    /// Increase budget's balance, up to the largest balance. A budget that was never made is
    /// made by this.
    fn refill_budget(&self, module: &mut Module, amount: &u64)
        requires
            old(module).wf(),
        ensures
            final(module).wf(),
            final(module)@ == old(module)@.refill_budget(self.budget_type(), *amount),
    ;

    /// Set budget's balance to `amount`, whatever it was. A budget that was never made is made
    /// by this.
    fn set_budget(&self, module: &mut Module, amount: &u64)
        requires
            old(module).wf(),
        ensures
            final(module).wf(),
            final(module)@ == old(module)@.set_budget(self.budget_type(), *amount),
    ;
}

impl BudgetControllerTrait for BudgetController {
    open spec fn budget_type(&self) -> u64 {
        self.spec_budget_type()
    }

    fn get_balance(&self, module: &Module) -> (balance: u64) {
        // check budget exists
        if !module.has_budget(self.budget_type) {
            return 0;
        }
        module.budgets(self.budget_type).balance
    }

    fn spend_from_budget(&self, module: &mut Module, amount: &u64) -> (spent: bool) {
        // ensure something is really about to be spent
        if *amount == 0 {
            return false;
        }
        // ensure budget exists
        if !module.has_budget(self.budget_type) {
            return false;
        }
        let budget = module.budgets(self.budget_type);

        // ensure budget has sufficient balance
        if budget.balance < *amount {
            return false;
        }
        // calculate new balance
        let new_balance = budget.balance - *amount;

        // update budget
        module.put_budget(self.budget_type, Budget { balance: new_balance, ..budget });

        true
    }

    fn refill_budget(&self, module: &mut Module, amount: &u64) {
        let budget = module.budgets(self.budget_type);
        let new_balance = budget.balance.saturating_add(*amount);
        module.put_budget(self.budget_type, Budget { balance: new_balance, ..budget });
    }

    fn set_budget(&self, module: &mut Module, amount: &u64) {
        let budget = module.budgets(self.budget_type);
        module.put_budget(self.budget_type, Budget { balance: *amount, ..budget });
    }
}

// A recipient that could be added is recorded afterwards.
proof fn lemma_stored_recipient(
    state: State,
    now: u64,
    budget_type: u64,
    user_id: u64,
    reward_per_block: u64,
)
    requires
        state.inv(),
        state.can_add_recipient(budget_type, user_id),
    ensures
        state.add_recipient(now, budget_type, user_id, reward_per_block).has_recipient(
            budget_type,
            user_id,
        ),
{
    let added = state.add_recipient(now, budget_type, user_id, reward_per_block);
    if state.has_recipient(budget_type, user_id) {
        let p = state.recipient_position(budget_type, user_id);
        assert(recipient_at(state.recipients, p, budget_type, user_id));
        assert(recipient_at(added.recipients, p, budget_type, user_id));
    } else {
        assert(recipient_at(added.recipients, state.recipients.len() as int, budget_type, user_id));
    }
}

impl Module {
    fn find_recipient(&self, budget_type: u64, user_id: u64) -> (found: Option<usize>)
        requires
            self.wf(),
        ensures
            match found {
                Some(i) => recipient_at(self@.recipients, i as int, budget_type, user_id)
                    && self@.has_recipient(budget_type, user_id) && self@.recipient_position(
                    budget_type,
                    user_id,
                ) == i,
                None => !self@.has_recipient(budget_type, user_id),
            },
    {
        let mut i: usize = 0;
        while i < self.recipients.len()
            invariant
                self.wf(),
                i <= self.recipients@.len(),
                forall|j: int|
                    0 <= j < i ==> !recipient_at(self.recipients@, j, budget_type, user_id),
            decreases self.recipients@.len() - i,
        {
            let record = &self.recipients[i];
            if record.budget_type == budget_type && record.recipient.user_id == user_id {
                proof {
                    lemma_recipient_position(self@, i as int, budget_type, user_id);
                }
                return Some(i);
            }
            i += 1;
        }
        None
    }

    /// The number of recipients of the budget.
    pub fn recipient_count(&self, budget_type: u64) -> (count: usize)
        ensures
            count == self@.recipient_count(budget_type),
    {
        let mut count: usize = 0;
        let mut i: usize = 0;
        while i < self.recipients.len()
            invariant
                i <= self.recipients@.len(),
                count <= i,
                count == sum_by(self.recipients@.take(i as int), in_budget(budget_type)),
            decreases self.recipients@.len() - i,
        {
            proof {
                assert(self.recipients@.take(i + 1).drop_last() =~= self.recipients@.take(
                    i as int,
                ));
            }
            if self.recipients[i].budget_type == budget_type {
                count += 1;
            }
            i += 1;
        }
        proof {
            assert(self.recipients@.take(i as int) =~= self.recipients@);
        }
        count
    }

    // Stores the record of a recipient, in its place where the budget has one of this user and
    // behind all others where it has none.
    fn put_recipient(&mut self, budget_type: u64, recipient: RewardRecipient)
        requires
            old(self).wf(),
            old(self)@.has_recipient(budget_type, recipient.user_id) || old(self)@.recipient_count(
                budget_type,
            ) < old(self)@.max_budget_reward_recipients,
        ensures
            final(self).wf(),
            final(self)@ == old(self)@.with_recipient(budget_type, recipient.user_id, recipient),
    {
        let record = RecipientRecord { budget_type, recipient };
        match self.find_recipient(budget_type, recipient.user_id) {
            Some(i) => {
                proof {
                    lemma_recipients_replaced(
                        self@.recipients,
                        self@.max_budget_reward_recipients,
                        i as int,
                        record,
                    );
                }
                self.recipients.set(i, record);
            },
            None => {
                proof {
                    lemma_recipients_added(
                        self@.recipients,
                        self@.max_budget_reward_recipients,
                        record,
                    );
                }
                self.recipients.push(record);
            },
        }
    }
}

/// The arithmetic of rewards.
pub struct Calculations;

impl Calculations {
    /// Calculate current reward for the recipient.
    pub fn get_current_reward(recipient: &RewardRecipient, now: u64) -> (reward: u64)
        ensures
            reward == current_reward(*recipient, now),
    {
        let blocks: u64 = if now >= recipient.last_payment_block {
            now - recipient.last_payment_block
        } else {
            0
        };
        assert(blocks * recipient.reward_per_block <= 0xffff_ffff_ffff_ffff
            * 0xffff_ffff_ffff_ffff) by (nonlinear_arith)
            requires
                blocks <= 0xffff_ffff_ffff_ffff,
                recipient.reward_per_block <= 0xffff_ffff_ffff_ffff,
        ;
        let earned: u128 = (blocks as u128) * (recipient.reward_per_block as u128);
        let total: u128 = earned + recipient.unpaid_reward as u128;
        if total > u64::MAX as u128 {
            u64::MAX
        } else {
            total as u64
        }
    }

    /// Retrieve current budget's balance and calculate missing balance for reward payment.
    pub fn withdraw_reward(module: &Module, budget_type: &u64, reward_amount: &u64) -> (parts: (
        u64,
        u64,
    ))
        ensures
            parts == split_reward(module@.budget(*budget_type).balance, *reward_amount),
    {
        let budget = module.budgets(*budget_type);

        // check if reward has enough balance
        if *reward_amount <= budget.balance {
            return (*reward_amount, 0);
        }
        // calculate missing balance
        let missing_balance = *reward_amount - budget.balance;

        (budget.balance, missing_balance)
    }
}

/// The trait defining operations for periodic reward budget.
pub trait PeriodicRewardBudgetControllerTrait: BudgetControllerTrait {
    /// Add the user to the list of periodic reward recipients, or change the rate of a user that
    /// is on it; what the user has earned so far is kept.
    fn add_recipient(
        &self,
        module: &mut Module,
        now: u64,
        id: &u64,
        reward_per_block: &u64,
    ) -> (added: bool)
        requires
            old(module).wf(),
        ensures
            final(module).wf(),
            added == old(module)@.can_add_recipient(self.budget_type(), *id),
            final(module)@ == old(module)@.add_recipient(
                now,
                self.budget_type(),
                *id,
                *reward_per_block,
            ),
    ;

    /// Retrieve recipient's information.
    fn get_recipient(&self, module: &Module, user_id: &u64) -> (recipient: Option<RewardRecipient>)
        requires
            module.wf(),
        ensures
            recipient == module@.get_recipient(self.budget_type(), *user_id),
    ;

    /// Remove the user from the list of periodic reward recipients. If user still has any unpaid
    /// reward it remains withdrawable.
    fn remove_recipient(&self, module: &mut Module, now: u64, id: &u64)
        requires
            old(module).wf(),
        ensures
            final(module).wf(),
            final(module)@ == old(module)@.remove_recipient(now, self.budget_type(), *id),
    ;

    /// Remove the user from the list of periodic reward recipients. Any unpaid reward is
    /// annulled, and the user can't withdraw it.
    fn remove_recipient_clear_reward(&self, module: &mut Module, id: &u64)
        requires
            old(module).wf(),
        ensures
            final(module).wf(),
            final(module)@ == old(module)@.remove_recipient_clear_reward(self.budget_type(), *id),
    ;
}

/// The trait defining operations for pull-based periodic reward budget.
pub trait PeriodicPullRewardBudgetControllerTrait: PeriodicRewardBudgetControllerTrait {
    /// Add the user to the list of periodic reward recipients, as one that withdraws the reward
    /// to `account_id`.
    fn add_pull_recipient(
        &self,
        module: &mut Module,
        now: u64,
        id: &u64,
        reward_per_block: &u64,
        account_id: &u64,
    ) -> (added: bool)
        requires
            old(module).wf(),
        ensures
            final(module).wf(),
            added == old(module)@.can_add_recipient(self.budget_type(), *id),
            final(module)@ == old(module)@.add_pull_recipient(
                now,
                self.budget_type(),
                *id,
                *reward_per_block,
                *account_id,
            ),
    ;
}

/// The trait for periodicly refilling budgets.
pub trait PeriodicRefillingBudgetControllerTrait: BudgetControllerTrait {
    /// Plan periodic budget balance increase: by `amount` every `period` blocks, first at
    /// `period` blocks from `now`. An amount of zero takes the plan of a budget away.
    fn set_budget_periodic_refill(
        &self,
        module: &mut Module,
        now: u64,
        period: &u64,
        amount: &u64,
    ) -> (set: bool)
        requires
            old(module).wf(),
        ensures
            final(module).wf(),
            set == old(module)@.can_set_periodic_refill(self.budget_type()),
            final(module)@ == old(module)@.set_budget_periodic_refill(
                now,
                self.budget_type(),
                *period,
                *amount,
            ),
    ;
}

impl PeriodicRewardBudgetControllerTrait for BudgetController {
    fn add_recipient(
        &self,
        module: &mut Module,
        now: u64,
        user_id: &u64,
        reward_per_block: &u64,
    ) -> (added: bool) {
        // check if recipient's record exists
        match module.find_recipient(self.budget_type, *user_id) {
            None => {
                if module.max_budget_reward_recipients == module.recipient_count(
                    self.budget_type,
                ) as u64 {
                    return false;
                }
                // create recipient
                module.put_recipient(
                    self.budget_type,
                    RewardRecipient {
                        last_payment_block: now,
                        reward_per_block: *reward_per_block,
                        unpaid_reward: 0,
                        pull_reward_enabled: false,
                        auto_payment_account_id: None,
                        user_id: *user_id,
                    },
                );
                true
            },
            Some(i) => {
                // calculate currently unpaid reward
                let recipient = module.recipients[i].recipient;
                let new_unpaid_reward = Calculations::get_current_reward(&recipient, now);

                // update recipient record
                module.put_recipient(
                    self.budget_type,
                    RewardRecipient {
                        last_payment_block: now,
                        reward_per_block: *reward_per_block,
                        unpaid_reward: new_unpaid_reward,
                        ..recipient
                    },
                );
                true
            },
        }
    }

    fn get_recipient(
        &self,
        module: &Module,
        user_id: &u64,
    ) -> (recipient: Option<RewardRecipient>) {
        match module.find_recipient(self.budget_type, *user_id) {
            None => None,
            Some(i) => Some(module.recipients[i].recipient),
        }
    }

    fn remove_recipient(&self, module: &mut Module, now: u64, user_id: &u64) {
        // check if recipient's record exists
        match module.find_recipient(self.budget_type, *user_id) {
            None => {},
            Some(i) => {
                // calculate unpaid reward
                let recipient = module.recipients[i].recipient;
                let new_unpaid_reward = Calculations::get_current_reward(&recipient, now);

                // update recipient
                module.put_recipient(
                    self.budget_type,
                    RewardRecipient {
                        last_payment_block: now,
                        reward_per_block: 0,
                        unpaid_reward: new_unpaid_reward,
                        ..recipient
                    },
                );
            },
        }
    }

    fn remove_recipient_clear_reward(&self, module: &mut Module, user_id: &u64) {
        match module.find_recipient(self.budget_type, *user_id) {
            None => {},
            Some(i) => {
                proof {
                    lemma_recipients_erased(
                        module@.recipients,
                        module@.max_budget_reward_recipients,
                        i as int,
                    );
                }
                module.recipients.remove(i);
            },
        }
    }
}

impl PeriodicPullRewardBudgetControllerTrait for BudgetController {
    fn add_pull_recipient(
        &self,
        module: &mut Module,
        now: u64,
        user_id: &u64,
        reward_per_block: &u64,
        account_id: &u64,
    ) -> (added: bool) {
        if !self.add_recipient(module, now, user_id, reward_per_block) {
            return false;
        }
        // enable pulling the reward

        proof {
            lemma_stored_recipient(
                old(module)@,
                now,
                self.budget_type,
                *user_id,
                *reward_per_block,
            );
        }
        match module.find_recipient(self.budget_type, *user_id) {
            None => {},
            Some(i) => {
                let recipient = module.recipients[i].recipient;
                module.put_recipient(
                    self.budget_type,
                    RewardRecipient {
                        pull_reward_enabled: true,
                        auto_payment_account_id: Some(*account_id),
                        ..recipient
                    },
                );
            },
        }
        true
    }
}

// The listed budget types without `budget_type`, in their order.
fn listed_without(listed: &Vec<u64>, budget_type: u64) -> (kept: Vec<u64>)
    ensures
        kept@ == listed@.filter(other_than(budget_type)),
{
    let mut kept: Vec<u64> = Vec::new();
    let mut i: usize = 0;
    proof {
        reveal(Seq::filter);
    }
    while i < listed.len()
        invariant
            i <= listed@.len(),
            kept@ == listed@.take(i as int).filter(other_than(budget_type)),
        decreases listed@.len() - i,
    {
        proof {
            reveal(Seq::filter);
            assert(listed@.take(i + 1).drop_last() =~= listed@.take(i as int));
        }
        if listed[i] != budget_type {
            kept.push(listed[i]);
        }
        i += 1;
    }
    proof {
        assert(listed@.take(i as int) =~= listed@);
    }
    kept
}

impl PeriodicRefillingBudgetControllerTrait for BudgetController {
    fn set_budget_periodic_refill(
        &self,
        module: &mut Module,
        now: u64,
        period: &u64,
        amount: &u64,
    ) -> (set: bool) {
        // don't allow periodic refill set for not-well-setup budget
        if !module.has_budget(self.budget_type) {
            return false;
        }
        let budget = module.budgets(self.budget_type);

        // ensure refilling budgets count haven't reached maximum yet
        if budget.refill.is_none() && module.active_budget_refills.len() as u64
            == module.max_refilling_budgets {
            return false;
        }
        // remove budget from refilling budget list if amount set to 0
        if budget.refill.is_some() && *amount == 0 {
            // remove budget refill
            module.budgets.insert(self.budget_type, Budget { refill: None, ..budget });

            // remove budget from list of refilling budgets
            module.active_budget_refills = listed_without(
                &module.active_budget_refills,
                self.budget_type,
            );

            proof {
                lemma_listed_without(old(module)@.active_budget_refills, self.budget_type);
                lemma_schedules_follow(
                    old(module)@.budgets,
                    old(module)@.active_budget_refills,
                    old(module)@.active_budget_auto_payments,
                    old(module)@.max_refilling_budgets,
                    self.budget_type,
                    module@.budgets[self.budget_type],
                    module@.active_budget_refills,
                    module@.active_budget_auto_payments,
                );
            }
            return true;
        }
        // add budget to refilling budget list if not present yet
        if budget.refill.is_none() {
            proof {
                assert(!old(module)@.active_budget_refills.contains(self.budget_type));
                lemma_listed_push(old(module)@.active_budget_refills, self.budget_type);
            }
            module.active_budget_refills.push(self.budget_type);
        }
        // update budget's refill info
        module.budgets.insert(
            self.budget_type,
            Budget {
                refill: Some(
                    BudgetRefill {
                        period: *period,
                        amount: *amount,
                        next_refill: now.saturating_add(*period),
                    },
                ),
                ..budget
            },
        );

        proof {
            lemma_schedules_follow(
                old(module)@.budgets,
                old(module)@.active_budget_refills,
                old(module)@.active_budget_auto_payments,
                old(module)@.max_refilling_budgets,
                self.budget_type,
                module@.budgets[self.budget_type],
                module@.active_budget_refills,
                module@.active_budget_auto_payments,
            );
        }
        true
    }
}

impl BudgetController {
    /// Plan periodic payment of the budget's recipients, first at `period` blocks from `now`.
    pub fn set_budget_auto_payment(
        &self,
        module: &mut Module,
        now: u64,
        period: &u64,
    ) -> (set: bool)
        requires
            old(module).wf(),
        ensures
            final(module).wf(),
            set == old(module)@.can_set_auto_payment(self.budget_type()),
            final(module)@ == old(module)@.set_budget_auto_payment(
                now,
                self.budget_type(),
                *period,
            ),
    {
        if !module.has_budget(self.budget_type) {
            return false;
        }
        let budget = module.budgets(self.budget_type);
        if budget.auto_payment.is_none() {
            proof {
                assert(!old(module)@.active_budget_auto_payments.contains(self.budget_type));
                lemma_listed_push(old(module)@.active_budget_auto_payments, self.budget_type);
            }
            module.active_budget_auto_payments.push(self.budget_type);
        }
        module.budgets.insert(
            self.budget_type,
            Budget {
                auto_payment: Some(
                    BudgetAutoPayment {
                        period: *period,
                        next_auto_payment: now.saturating_add(*period),
                    },
                ),
                ..budget
            },
        );
        proof {
            lemma_schedules_follow(
                old(module)@.budgets,
                old(module)@.active_budget_refills,
                old(module)@.active_budget_auto_payments,
                old(module)@.max_refilling_budgets,
                self.budget_type,
                module@.budgets[self.budget_type],
                module@.active_budget_refills,
                module@.active_budget_auto_payments,
            );
        }
        true
    }
}

impl From<BadOrigin> for Error {
    fn from(_error: BadOrigin) -> (error: Error) {
        Error::BadOrigin
    }
}

impl vstd::std_specs::convert::FromSpecImpl<BadOrigin> for Error {
    open spec fn obeys_from_spec() -> bool {
        true
    }

    open spec fn from_spec(_error: BadOrigin) -> Error {
        Error::BadOrigin
    }
}

/// The checks that come before any change.
pub struct EnsureChecks;

impl EnsureChecks {
    /// Ensures membership id is associated with account derived from the origin.
    pub fn ensure_user_membership(
        module: &Module,
        origin: RawOrigin,
        budget_user_id: &u64,
    ) -> (res: Result<u64, Error>)
        ensures
            res == module@.ensure_user_membership(origin, *budget_user_id),
    {
        let account_id = match ensure_signed(origin) {
            Ok(account_id) => account_id,
            Err(error) => {
                return Err(Error::from(error));
            },
        };

        // check membership is associated with account
        if !module.is_member_account(*budget_user_id, account_id) {
            return Err(Error::BudgetUserIdNotMatchAccount);
        }
        Ok(account_id)
    }

    /// Checks that user can withdraw reward from the selected budget.
    pub fn can_withdraw_reward(
        module: &Module,
        now: u64,
        origin: RawOrigin,
        budget_type: &u64,
        user_id: &u64,
    ) -> (res: Result<(u64, RewardRecipient, u64), Error>)
        requires
            module.wf(),
        ensures
            res == module@.can_withdraw_reward(now, origin, *budget_type, *user_id),
    {
        // ensure user's membership
        let account_id = match Self::ensure_user_membership(module, origin, user_id) {
            Ok(account_id) => account_id,
            Err(error) => {
                return Err(error);
            },
        };

        // ensure user is reward recipient
        let recipient = match module.find_recipient(*budget_type, *user_id) {
            None => {
                return Err(Error::NotRewardRecipient);
            },
            Some(i) => module.recipients[i].recipient,
        };

        if !recipient.pull_reward_enabled {
            return Err(Error::NotPullRewardRecipient);
        }
        let reward = Calculations::get_current_reward(&recipient, now);

        // ensure user is eligible to receive some reward
        if reward == 0 {
            return Err(Error::NoRewardNow);
        }
        // ensure budget can spend at least something
        if !module.has_budget(*budget_type) {
            return Err(Error::InvalidBudget);
        }
        // ensure budget can spent at least something
        if module.budgets(*budget_type).balance == 0 {
            return Err(Error::BudgetDepleted);
        }
        Ok((account_id, recipient, reward))
    }
}

struct Mutations;

impl Mutations {
    // Payout currently accumulated reward to the user.
    fn withdraw_reward(
        module: &mut Module,
        now: u64,
        budget_type: &u64,
        user_id: &u64,
        account_id: &u64,
        recipient: &RewardRecipient,
        amount: &u64,
        unpaid_remaining: &u64,
    ) -> (res: Result<(), Error>)
        requires
            old(module).wf(),
            *amount <= old(module)@.budget(*budget_type).balance,
            recipient.user_id == *user_id,
            old(module)@.has_recipient(*budget_type, *user_id),
        ensures
            final(module).wf(),
            res.is_ok() <==> crate::ledger::has_room(
                old(module)@.balances,
                AccountId::External(*account_id),
                *amount as nat,
            ),
            res.is_ok() ==> final(module)@ == old(module)@.pay_out(
                now,
                *budget_type,
                *user_id,
                *account_id,
                *recipient,
                *amount,
                *unpaid_remaining,
            ),
            res.is_err() ==> res == Err::<(), Error>(Error::RewardPaymentFail) && final(module)@
                == old(module)@,
    {
        let budget = module.budgets(*budget_type);

        // send reward to user
        if module.ledger.deposit(AccountId::External(*account_id), *amount).is_err() {
            return Err(Error::RewardPaymentFail);
        }
        proof {
            module.ledger.lemma_balance_bounded(AccountId::External(*account_id));
        }
        // update budget balance
        module.put_budget(*budget_type, Budget { balance: budget.balance - *amount, ..budget });

        // update recipient record
        module.put_recipient(
            *budget_type,
            RewardRecipient {
                last_payment_block: now,
                unpaid_reward: *unpaid_remaining,
                ..*recipient
            },
        );

        Ok(())
    }

    // Increases budgets balance and plans next refill.
    fn refill_budget(
        module: &mut Module,
        now: u64,
        budget_type: &u64,
        budget: &Budget,
        refill: &BudgetRefill,
    )
        requires
            old(module).wf(),
            old(module)@.budget(*budget_type) == *budget,
            budget.refill == Some(*refill),
        ensures
            final(module).wf(),
            final(module)@ == old(module)@.with_budget(
                *budget_type,
                Budget {
                    balance: crate::common::saturate(budget.balance + refill.amount),
                    refill: Some(
                        BudgetRefill {
                            next_refill: crate::common::saturate(now + refill.period),
                            ..*refill
                        },
                    ),
                    ..*budget
                },
            ),
    {
        // calculate new balance
        let new_balance = budget.balance.saturating_add(refill.amount);

        // update budget balance and set next refill block number
        module.put_budget(
            *budget_type,
            Budget {
                balance: new_balance,
                refill: Some(
                    BudgetRefill { next_refill: now.saturating_add(refill.period), ..*refill },
                ),
                auto_payment: budget.auto_payment,
            },
        );
    }

    // Pays budgets reward to known recipients and plans next payment reward.
    fn auto_payment_budget(
        module: &mut Module,
        now: u64,
        budget_type: &u64,
        budget: &Budget,
        auto_payment: &BudgetAutoPayment,
    )
        requires
            old(module).wf(),
            old(module)@.budget(*budget_type) == *budget,
            budget.auto_payment == Some(*auto_payment),
        ensures
            final(module).wf(),
            final(module)@ == old(module)@.auto_payment_budget(
                now,
                *budget_type,
                *budget,
                *auto_payment,
            ),
    {
        let ghost start = PaymentRun {
            recipients: module@.recipients,
            balances: module@.balances,
            total_issuance: module@.total_issuance,
            remaining: budget.balance,
        };
        let ghost target = pay_from(start, *budget_type, now, 0);

        // walkthrough recipients
        let mut new_balance = budget.balance;
        let mut stopped = false;
        let mut i: usize = 0;
        while i < module.recipients.len() && !stopped
            invariant
                module.wf(),
                i <= module@.recipients.len(),
                module@ == (State {
                    recipients: module@.recipients,
                    balances: module@.balances,
                    total_issuance: module@.total_issuance,
                    ..old(module)@
                }),
                ({
                    let run = PaymentRun {
                        recipients: module@.recipients,
                        balances: module@.balances,
                        total_issuance: module@.total_issuance,
                        remaining: new_balance,
                    };
                    if stopped {
                        run == target
                    } else {
                        pay_from(run, *budget_type, now, i as int) == target
                    }
                }),
            decreases module@.recipients.len() - i + if stopped { 0int } else { 1int },
        {
            // stop iterating if budget is completely depleted
            if new_balance == 0 {
                stopped = true;
            } else {
                let record = module.recipients[i];
                if record.budget_type != *budget_type {
                    i += 1;
                } else {
                    let recipient = record.recipient;
                    let new_unpaid_reward = Calculations::get_current_reward(&recipient, now);

                    // calculate how much can be paid from budget
                    let reward_to_pay = if new_balance >= new_unpaid_reward {
                        new_unpaid_reward
                    } else {
                        new_balance
                    };

                    match recipient.auto_payment_account_id {
                        None => {
                            i += 1;
                        },
                        Some(account_id) => {
                            // send reward to user - end the run if the payment failed
                            if module.ledger.deposit(
                                AccountId::External(account_id),
                                reward_to_pay,
                            ).is_err() {
                                stopped = true;
                            } else {
                                proof {
                                    module.ledger.lemma_balance_bounded(
                                        AccountId::External(account_id),
                                    );
                                }
                                proof {
                                    lemma_recipients_replaced(
                                        module@.recipients,
                                        module@.max_budget_reward_recipients,
                                        i as int,
                                        RecipientRecord {
                                            budget_type: *budget_type,
                                            recipient: RewardRecipient {
                                                last_payment_block: now,
                                                unpaid_reward: (new_unpaid_reward
                                                    - reward_to_pay) as u64,
                                                ..recipient
                                            },
                                        },
                                    );
                                }
                                // update recipient record
                                module.recipients.set(
                                    i,
                                    RecipientRecord {
                                        budget_type: *budget_type,
                                        recipient: RewardRecipient {
                                            last_payment_block: now,
                                            unpaid_reward: new_unpaid_reward - reward_to_pay,
                                            ..recipient
                                        },
                                    },
                                );
                                new_balance -= reward_to_pay;
                                i += 1;
                            }
                        },
                    }
                }
            }
        }

        // update budget balance and set next auto payment block number
        module.put_budget(
            *budget_type,
            Budget {
                balance: new_balance,
                refill: budget.refill,
                auto_payment: Some(
                    BudgetAutoPayment {
                        next_auto_payment: auto_payment.next_auto_payment.saturating_add(
                            auto_payment.period,
                        ),
                        ..*auto_payment
                    },
                ),
            },
        );
    }
}

impl Module {
    /// Execute planned budgets refills.
    pub fn try_refill_budgets(&mut self, now: u64)
        requires
            old(self).wf(),
        ensures
            final(self).wf(),
            final(self)@ == old(self)@.try_refill_budgets(now),
    {
        let listed = self.active_budget_refills.clone();
        let mut i: usize = 0;
        // iterate through refilling budgets
        while i < listed.len()
            invariant
                self.wf(),
                i <= listed@.len(),
                self@.refill_from(now, listed@, i as int) == old(self)@.refill_from(
                    now,
                    listed@,
                    0,
                ),
            decreases listed@.len() - i,
        {
            let budget_type = listed[i];
            let budget = self.budgets(budget_type);

            // deconstruct refill
            match budget.refill {
                Some(refill) => {
                    // refill budget if it is due time
                    if refill.next_refill == now {
                        Mutations::refill_budget(self, now, &budget_type, &budget, &refill);
                    }
                },
                None => {},
            }
            i += 1;
        }
    }

    /// Execute planned automatic rewards.
    pub fn try_pay_reward(&mut self, now: u64)
        requires
            old(self).wf(),
        ensures
            final(self).wf(),
            final(self)@ == old(self)@.try_pay_reward(now),
    {
        let listed = self.active_budget_auto_payments.clone();
        let mut i: usize = 0;
        // iterate through paying budgets
        while i < listed.len()
            invariant
                self.wf(),
                i <= listed@.len(),
                self@.pay_listed_from(now, listed@, i as int) == old(self)@.pay_listed_from(
                    now,
                    listed@,
                    0,
                ),
            decreases listed@.len() - i,
        {
            let budget_type = listed[i];
            let budget = self.budgets(budget_type);

            // deconstruct automatic payment
            match budget.auto_payment {
                Some(auto_payment) => {
                    // pay the budget's recipients if it is due time
                    if auto_payment.next_auto_payment == now {
                        Mutations::auto_payment_budget(
                            self,
                            now,
                            &budget_type,
                            &budget,
                            &auto_payment,
                        );
                    }
                },
                None => {},
            }
            i += 1;
        }
    }

    /// The maintenance at the end of block `now`: the refills that are due, then the automatic
    /// payments that are due.
    pub fn on_finalize(&mut self, now: u64)
        requires
            old(self).wf(),
        ensures
            final(self).wf(),
            final(self)@ == old(self)@.on_finalize(now),
    {
        // process automatic reward payments and budget refills
        self.try_refill_budgets(now);
        self.try_pay_reward(now);
    }

    /// Pays the caller the reward that the budget owes to `user_id`, as far as the budget can.
    pub fn withdraw_reward(
        &mut self,
        now: u64,
        origin: RawOrigin,
        budget_type: u64,
        user_id: u64,
    ) -> (res: Result<Event, Error>)
        requires
            old(self).wf(),
        ensures
            final(self).wf(),
            res == old(self)@.withdraw_reward_result(now, origin, budget_type, user_id),
            final(self)@ == old(self)@.withdraw_reward(now, origin, budget_type, user_id),
    {
        // ensure action can be started
        let (account_id, recipient, reward) = match EnsureChecks::can_withdraw_reward(
            self,
            now,
            origin,
            &budget_type,
            &user_id,
        ) {
            Ok(checked) => checked,
            Err(error) => {
                return Err(error);
            },
        };

        // calculate withdrawable balance
        let (available_balance, missing_balance) = Calculations::withdraw_reward(
            self,
            &budget_type,
            &reward,
        );

        proof {
            let p = self@.recipient_position(budget_type, user_id);
            assert(recipient_at(self@.recipients, p, budget_type, user_id));
        }
        match Mutations::withdraw_reward(
            self,
            now,
            &budget_type,
            &user_id,
            &account_id,
            &recipient,
            &available_balance,
            &missing_balance,
        ) {
            Ok(()) => {},
            Err(error) => {
                return Err(error);
            },
        }

        // emit event
        if missing_balance > 0 {
            // reward has been paid only partially
            Ok(Event::RewardPartialWithdrawal(user_id, account_id))
        } else {
            // whole reward has been paid
            Ok(Event::RewardWithdrawal(user_id, account_id))
        }
    }
}

/// The trait facilitating access to generic budgets.
pub trait BudgetCollection<Controller: BudgetControllerTrait> {
    /// Get selected budget controller.
    fn get_budget(budget_type: &u64) -> (controller: Controller)
        ensures
            controller.budget_type() == *budget_type,
    ;
}

/// The trait facilitating access to pull-based reward budgets.
pub trait PeriodicRewardBudgetCollection<
    Controller: PeriodicRewardBudgetControllerTrait,
>: BudgetCollection<Controller> {
    /// Get selected budget controller.
    fn get_reward_budget(budget_type: &u64) -> (controller: Controller)
        ensures
            controller.budget_type() == *budget_type,
    ;
}

impl BudgetCollection<BudgetController> for Module {
    fn get_budget(budget_type: &u64) -> (controller: BudgetController) {
        BudgetController { budget_type: *budget_type }
    }
}

impl PeriodicRewardBudgetCollection<BudgetController> for Module {
    fn get_reward_budget(budget_type: &u64) -> (controller: BudgetController) {
        BudgetController { budget_type: *budget_type }
    }
}

/// The trait for easy access to budgets.
pub trait BudgetsAccess {
    /// Generic budget controller.
    type GenericBudgetControllerTrait: BudgetControllerTrait;

    /// Controller for budget with periodic rewards.
    type PeriodicBudgetControllerTrait: PeriodicRewardBudgetControllerTrait;

    /// Controller for budget with periodic rewards that users can withdraw themselves.
    type PeriodicPullRewardBudgetControllerTrait: PeriodicPullRewardBudgetControllerTrait;

    /// Collection of budgets.
    type BudgetCollection: BudgetCollection<
        Self::GenericBudgetControllerTrait,
    > + PeriodicRewardBudgetCollection<Self::PeriodicBudgetControllerTrait>;
}

impl BudgetsAccess for Module {
    type GenericBudgetControllerTrait = BudgetController;

    type PeriodicBudgetControllerTrait = BudgetController;

    type PeriodicPullRewardBudgetControllerTrait = BudgetController;

    type BudgetCollection = Module;
}

/// Lets the blocks pass from `current_block` to `target_block`, with the maintenance at the
/// end of each, and says at which block the engine then stands.
pub fn run_to_block(module: &mut Module, current_block: u64, target_block: u64) -> (block: u64)
    requires
        old(module).wf(),
    ensures
        final(module).wf(),
        block == if current_block < target_block {
            target_block
        } else {
            current_block
        },
        final(module)@ == old(module)@.run_to_block(current_block, target_block),
{
    let mut block = current_block;
    while block < target_block
        invariant
            module.wf(),
            current_block <= block,
            block <= target_block || block == current_block,
            module@.run_to_block(block, target_block) == old(module)@.run_to_block(
                current_block,
                target_block,
            ),
        decreases target_block - block,
    {
        module.on_finalize(block);
        block += 1;
    }
    block
}

} // verus!
