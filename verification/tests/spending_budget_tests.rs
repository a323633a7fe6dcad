use runtime_modules::common::{BadOrigin, RawOrigin};
use runtime_modules::spending_budget::{
    run_to_block, Budget, BudgetAutoPayment, BudgetCollection, BudgetController,
    BudgetControllerTrait, BudgetRefill, Calculations, EnsureChecks, Error, Event, Module,
    PeriodicPullRewardBudgetControllerTrait, PeriodicRefillingBudgetControllerTrait,
    PeriodicRewardBudgetCollection, PeriodicRewardBudgetControllerTrait, RewardRecipient,
};

const BUDGET: u64 = 1;
const MAX_REFILLING_BUDGETS: u64 = 2;
const MAX_RECIPIENTS: u64 = 3;

fn new_module() -> Module {
    Module::new(MAX_REFILLING_BUDGETS, MAX_RECIPIENTS)
}

fn controller(budget_type: u64) -> BudgetController {
    <Module as BudgetCollection<BudgetController>>::get_budget(&budget_type)
}

fn recipient_of(module: &Module, budget_type: u64, user_id: u64) -> RewardRecipient {
    controller(budget_type).get_recipient(module, &user_id).expect("the user is a recipient")
}

#[test]
fn controllers_of_one_budget_type_are_the_same() {
    assert_eq!(controller(7), BudgetController::from((7,)));
    assert_eq!(
        controller(7),
        <Module as PeriodicRewardBudgetCollection<BudgetController>>::get_reward_budget(&7)
    );
    assert_ne!(controller(7), controller(8));
}

#[test]
fn a_budget_that_was_never_made_is_empty() {
    let module = new_module();
    assert_eq!(controller(BUDGET).get_balance(&module), 0);
    assert!(!module.has_budget(BUDGET));
    assert_eq!(module.budgets(BUDGET), Budget { balance: 0, refill: None, auto_payment: None });
}

#[test]
fn refill_makes_the_budget_and_adds_to_it() {
    let mut module = new_module();
    controller(BUDGET).refill_budget(&mut module, &100);
    assert!(module.has_budget(BUDGET));
    assert_eq!(controller(BUDGET).get_balance(&module), 100);
    controller(BUDGET).refill_budget(&mut module, &50);
    assert_eq!(controller(BUDGET).get_balance(&module), 150);
    // Another budget is not touched.
    assert_eq!(controller(2).get_balance(&module), 0);
}

#[test]
fn refill_holds_the_balance_at_the_largest() {
    let mut module = new_module();
    controller(BUDGET).refill_budget(&mut module, &(u64::MAX - 1));
    controller(BUDGET).refill_budget(&mut module, &5);
    assert_eq!(controller(BUDGET).get_balance(&module), u64::MAX);
}

#[test]
fn set_budget_overwrites_the_balance() {
    let mut module = new_module();
    controller(BUDGET).set_budget(&mut module, &100);
    assert_eq!(controller(BUDGET).get_balance(&module), 100);
    controller(BUDGET).set_budget(&mut module, &30);
    assert_eq!(controller(BUDGET).get_balance(&module), 30);
}

#[test]
fn set_budget_keeps_the_schedules() {
    let mut module = new_module();
    controller(BUDGET).set_budget(&mut module, &100);
    assert!(controller(BUDGET).set_budget_periodic_refill(&mut module, 5, &10, &7));
    controller(BUDGET).set_budget(&mut module, &1);
    assert_eq!(
        module.budgets(BUDGET),
        Budget {
            balance: 1,
            refill: Some(BudgetRefill { period: 10, amount: 7, next_refill: 15 }),
            auto_payment: None,
        }
    );
}

#[test]
fn spend_from_budget_takes_what_the_budget_holds() {
    let mut module = new_module();
    // No budget yet.
    assert!(!controller(BUDGET).spend_from_budget(&mut module, &1));
    controller(BUDGET).refill_budget(&mut module, &100);
    // Nothing to spend.
    assert!(!controller(BUDGET).spend_from_budget(&mut module, &0));
    // More than there is.
    assert!(!controller(BUDGET).spend_from_budget(&mut module, &101));
    assert_eq!(controller(BUDGET).get_balance(&module), 100);
    assert!(controller(BUDGET).spend_from_budget(&mut module, &40));
    assert_eq!(controller(BUDGET).get_balance(&module), 60);
    // All of it.
    assert!(controller(BUDGET).spend_from_budget(&mut module, &60));
    assert_eq!(controller(BUDGET).get_balance(&module), 0);
    assert!(module.has_budget(BUDGET));
}

#[test]
fn current_reward_is_the_unpaid_and_the_rate_for_every_block() {
    let recipient = RewardRecipient {
        last_payment_block: 10,
        reward_per_block: 5,
        unpaid_reward: 7,
        pull_reward_enabled: false,
        auto_payment_account_id: None,
        user_id: 1,
    };
    assert_eq!(Calculations::get_current_reward(&recipient, 10), 7);
    assert_eq!(Calculations::get_current_reward(&recipient, 13), 22);
    // A block before the checkpoint earns nothing.
    assert_eq!(Calculations::get_current_reward(&recipient, 3), 7);
    // The reward is held at the largest balance.
    let rich = RewardRecipient { reward_per_block: u64::MAX, ..recipient };
    assert_eq!(Calculations::get_current_reward(&rich, 12), u64::MAX);
}

#[test]
fn withdraw_reward_parts_split_the_reward_at_the_balance() {
    let mut module = new_module();
    controller(BUDGET).refill_budget(&mut module, &100);
    assert_eq!(Calculations::withdraw_reward(&module, &BUDGET, &60), (60, 0));
    assert_eq!(Calculations::withdraw_reward(&module, &BUDGET, &100), (100, 0));
    assert_eq!(Calculations::withdraw_reward(&module, &BUDGET, &130), (100, 30));
    assert_eq!(Calculations::withdraw_reward(&module, &2, &130), (0, 130));
}

#[test]
fn add_recipient_starts_a_record_at_the_current_block() {
    let mut module = new_module();
    assert_eq!(controller(BUDGET).get_recipient(&module, &9), None);
    assert!(controller(BUDGET).add_recipient(&mut module, 4, &9, &5));
    assert_eq!(
        recipient_of(&module, BUDGET, 9),
        RewardRecipient {
            last_payment_block: 4,
            reward_per_block: 5,
            unpaid_reward: 0,
            pull_reward_enabled: false,
            auto_payment_account_id: None,
            user_id: 9,
        }
    );
    // The user is no recipient of another budget.
    assert_eq!(controller(2).get_recipient(&module, &9), None);
}

#[test]
fn add_recipient_is_refused_beyond_the_limit() {
    let mut module = new_module();
    assert!(controller(BUDGET).add_recipient(&mut module, 0, &1, &5));
    assert!(controller(BUDGET).add_recipient(&mut module, 0, &2, &5));
    assert!(controller(BUDGET).add_recipient(&mut module, 0, &3, &5));
    assert_eq!(module.recipient_count(BUDGET), 3);
    assert!(!controller(BUDGET).add_recipient(&mut module, 0, &4, &5));
    assert_eq!(controller(BUDGET).get_recipient(&module, &4), None);
    assert_eq!(module.recipient_count(BUDGET), 3);
    // A recipient that is there can still change its rate.
    assert!(controller(BUDGET).add_recipient(&mut module, 0, &2, &8));
    // Another budget has room.
    assert!(controller(2).add_recipient(&mut module, 0, &4, &5));
}

#[test]
fn reward_accrual_is_additive_across_a_rate_change() {
    let mut module = new_module();
    let (r, n, r2, m) = (5, 10, 2, 3);
    assert!(controller(BUDGET).add_recipient(&mut module, 0, &1, &r));
    assert!(controller(BUDGET).add_recipient(&mut module, n, &1, &r2));
    let recipient = recipient_of(&module, BUDGET, 1);
    assert_eq!(recipient.unpaid_reward, 50);
    assert_eq!(recipient.last_payment_block, n);
    assert_eq!(recipient.reward_per_block, r2);
    assert_eq!(Calculations::get_current_reward(&recipient, n + m), 56);
}

#[test]
fn remove_recipient_keeps_what_was_earned() {
    let mut module = new_module();
    assert!(controller(BUDGET).add_recipient(&mut module, 0, &1, &5));
    controller(BUDGET).remove_recipient(&mut module, 10, &1);
    let recipient = recipient_of(&module, BUDGET, 1);
    assert_eq!(recipient.unpaid_reward, 50);
    assert_eq!(recipient.reward_per_block, 0);
    assert_eq!(recipient.last_payment_block, 10);
    assert_eq!(Calculations::get_current_reward(&recipient, 1000), 50);
    // Removing a user that is no recipient does nothing.
    controller(BUDGET).remove_recipient(&mut module, 10, &2);
    assert_eq!(controller(BUDGET).get_recipient(&module, &2), None);
}

#[test]
fn remove_recipient_clear_reward_erases_the_record() {
    let mut module = new_module();
    assert!(controller(BUDGET).add_recipient(&mut module, 0, &1, &5));
    assert!(controller(BUDGET).add_recipient(&mut module, 0, &2, &6));
    controller(BUDGET).remove_recipient_clear_reward(&mut module, &1);
    assert_eq!(controller(BUDGET).get_recipient(&module, &1), None);
    assert_eq!(recipient_of(&module, BUDGET, 2).reward_per_block, 6);
    assert_eq!(module.recipient_count(BUDGET), 1);
}

#[test]
fn add_pull_recipient_binds_the_account() {
    let mut module = new_module();
    assert!(controller(BUDGET).add_pull_recipient(&mut module, 2, &1, &5, &77));
    assert_eq!(
        recipient_of(&module, BUDGET, 1),
        RewardRecipient {
            last_payment_block: 2,
            reward_per_block: 5,
            unpaid_reward: 0,
            pull_reward_enabled: true,
            auto_payment_account_id: Some(77),
            user_id: 1,
        }
    );
}

#[test]
fn membership_is_checked_against_the_signing_account() {
    let mut module = new_module();
    module.set_member_account(1, 77);
    assert!(module.is_member_account(1, 77));
    assert!(!module.is_member_account(1, 78));
    assert!(!module.is_member_account(2, 77));
    assert_eq!(EnsureChecks::ensure_user_membership(&module, RawOrigin::Signed(77), &1), Ok(77));
    assert_eq!(
        EnsureChecks::ensure_user_membership(&module, RawOrigin::Root, &1),
        Err(Error::BadOrigin)
    );
    assert_eq!(
        EnsureChecks::ensure_user_membership(&module, RawOrigin::Unsigned, &1),
        Err(Error::BadOrigin)
    );
    assert_eq!(
        EnsureChecks::ensure_user_membership(&module, RawOrigin::Signed(78), &1),
        Err(Error::BudgetUserIdNotMatchAccount)
    );
    assert_eq!(Error::from(BadOrigin), Error::BadOrigin);
}

fn module_with_pull_recipient(balance: u64, rate: u64) -> Module {
    let mut module = new_module();
    module.set_member_account(1, 77);
    controller(BUDGET).refill_budget(&mut module, &balance);
    assert!(controller(BUDGET).add_pull_recipient(&mut module, 0, &1, &rate, &77));
    module
}

#[test]
fn withdraw_reward_pays_the_whole_reward() {
    let mut module = module_with_pull_recipient(1000, 5);
    assert_eq!(
        module.withdraw_reward(10, RawOrigin::Signed(77), BUDGET, 1),
        Ok(Event::RewardWithdrawal(1, 77))
    );
    assert_eq!(module.free_balance(77), 50);
    assert_eq!(controller(BUDGET).get_balance(&module), 950);
    let recipient = recipient_of(&module, BUDGET, 1);
    assert_eq!(recipient.unpaid_reward, 0);
    assert_eq!(recipient.last_payment_block, 10);
    assert_eq!(recipient.reward_per_block, 5);
}

#[test]
fn withdraw_reward_pays_what_the_budget_has_and_keeps_the_rest() {
    let mut module = module_with_pull_recipient(30, 5);
    assert_eq!(
        module.withdraw_reward(10, RawOrigin::Signed(77), BUDGET, 1),
        Ok(Event::RewardPartialWithdrawal(1, 77))
    );
    assert_eq!(module.free_balance(77), 30);
    assert_eq!(controller(BUDGET).get_balance(&module), 0);
    let recipient = recipient_of(&module, BUDGET, 1);
    assert_eq!(recipient.unpaid_reward, 20);
    assert_eq!(recipient.last_payment_block, 10);
    // With nothing in the budget the rest waits.
    assert_eq!(
        module.withdraw_reward(11, RawOrigin::Signed(77), BUDGET, 1),
        Err(Error::BudgetDepleted)
    );
    controller(BUDGET).refill_budget(&mut module, &100);
    assert_eq!(
        module.withdraw_reward(12, RawOrigin::Signed(77), BUDGET, 1),
        Ok(Event::RewardWithdrawal(1, 77))
    );
    assert_eq!(module.free_balance(77), 60);
    assert_eq!(controller(BUDGET).get_balance(&module), 70);
}

#[test]
fn withdraw_reward_is_refused_for_each_reason() {
    let mut module = module_with_pull_recipient(1000, 5);
    assert_eq!(module.withdraw_reward(10, RawOrigin::Root, BUDGET, 1), Err(Error::BadOrigin));
    assert_eq!(
        module.withdraw_reward(10, RawOrigin::Signed(78), BUDGET, 1),
        Err(Error::BudgetUserIdNotMatchAccount)
    );
    module.set_member_account(2, 78);
    assert_eq!(
        module.withdraw_reward(10, RawOrigin::Signed(78), BUDGET, 2),
        Err(Error::NotRewardRecipient)
    );
    assert!(controller(BUDGET).add_recipient(&mut module, 0, &2, &5));
    assert_eq!(
        module.withdraw_reward(10, RawOrigin::Signed(78), BUDGET, 2),
        Err(Error::NotPullRewardRecipient)
    );
    // Nothing has accrued in the block of the registration.
    assert_eq!(
        module.withdraw_reward(0, RawOrigin::Signed(77), BUDGET, 1),
        Err(Error::NoRewardNow)
    );
    // A recipient of a budget that was never made.
    assert!(controller(2).add_pull_recipient(&mut module, 0, &1, &5, &77));
    assert_eq!(
        module.withdraw_reward(10, RawOrigin::Signed(77), 2, 1),
        Err(Error::InvalidBudget)
    );
    controller(2).refill_budget(&mut module, &0);
    assert_eq!(
        module.withdraw_reward(10, RawOrigin::Signed(77), 2, 1),
        Err(Error::BudgetDepleted)
    );
    // Nothing was paid by any of these.
    assert_eq!(module.free_balance(77), 0);
    assert_eq!(controller(BUDGET).get_balance(&module), 1000);
    assert_eq!(
        EnsureChecks::can_withdraw_reward(&module, 10, RawOrigin::Signed(77), &BUDGET, &1),
        Ok((77, recipient_of(&module, BUDGET, 1), 50))
    );
}

#[test]
fn withdraw_reward_fails_where_the_payment_cannot_be_made() {
    let mut module = new_module();
    module.set_member_account(1, 77);
    controller(BUDGET).refill_budget(&mut module, &u64::MAX);
    assert!(controller(BUDGET).add_pull_recipient(&mut module, 0, &1, &(u64::MAX - 10), &77));
    assert_eq!(
        module.withdraw_reward(1, RawOrigin::Signed(77), BUDGET, 1),
        Ok(Event::RewardWithdrawal(1, 77))
    );
    assert_eq!(module.free_balance(77), u64::MAX - 10);
    // The account has room for 10 and is owed more: the payment is refused and nothing
    // changes.
    controller(BUDGET).refill_budget(&mut module, &u64::MAX);
    let before = recipient_of(&module, BUDGET, 1);
    let balance = controller(BUDGET).get_balance(&module);
    assert_eq!(
        module.withdraw_reward(2, RawOrigin::Signed(77), BUDGET, 1),
        Err(Error::RewardPaymentFail)
    );
    assert_eq!(module.free_balance(77), u64::MAX - 10);
    assert_eq!(controller(BUDGET).get_balance(&module), balance);
    assert_eq!(recipient_of(&module, BUDGET, 1), before);
    // Another account is paid beside it.
    module.set_member_account(2, 78);
    assert!(controller(BUDGET).add_pull_recipient(&mut module, 0, &2, &1, &78));
    assert_eq!(
        module.withdraw_reward(2, RawOrigin::Signed(78), BUDGET, 2),
        Ok(Event::RewardWithdrawal(2, 78))
    );
    assert_eq!(module.free_balance(78), 2);
}

#[test]
fn periodic_refill_needs_a_budget_and_room_in_the_list() {
    let mut module = new_module();
    assert!(!controller(BUDGET).set_budget_periodic_refill(&mut module, 0, &10, &5));
    controller(1).refill_budget(&mut module, &0);
    controller(2).refill_budget(&mut module, &0);
    controller(3).refill_budget(&mut module, &0);
    assert!(controller(1).set_budget_periodic_refill(&mut module, 0, &10, &5));
    assert!(controller(2).set_budget_periodic_refill(&mut module, 0, &10, &5));
    assert_eq!(module.active_budget_refills(), vec![1, 2]);
    assert!(!controller(3).set_budget_periodic_refill(&mut module, 0, &10, &5));
    // A listed budget can change its refill.
    assert!(controller(1).set_budget_periodic_refill(&mut module, 3, &20, &6));
    assert_eq!(
        module.budgets(1).refill,
        Some(BudgetRefill { period: 20, amount: 6, next_refill: 23 })
    );
    assert_eq!(module.active_budget_refills(), vec![1, 2]);
    // An amount of zero takes it off the list.
    assert!(controller(1).set_budget_periodic_refill(&mut module, 3, &20, &0));
    assert_eq!(module.budgets(1).refill, None);
    assert_eq!(module.active_budget_refills(), vec![2]);
    assert!(controller(3).set_budget_periodic_refill(&mut module, 0, &10, &5));
    assert_eq!(module.active_budget_refills(), vec![2, 3]);
}

#[test]
fn budgets_refill_at_their_block_only() {
    let mut module = new_module();
    controller(BUDGET).refill_budget(&mut module, &100);
    assert!(controller(BUDGET).set_budget_periodic_refill(&mut module, 0, &10, &7));
    module.try_refill_budgets(9);
    assert_eq!(controller(BUDGET).get_balance(&module), 100);
    module.try_refill_budgets(10);
    assert_eq!(controller(BUDGET).get_balance(&module), 107);
    assert_eq!(
        module.budgets(BUDGET).refill,
        Some(BudgetRefill { period: 10, amount: 7, next_refill: 20 })
    );
    module.try_refill_budgets(10);
    assert_eq!(controller(BUDGET).get_balance(&module), 107);
    module.try_refill_budgets(20);
    assert_eq!(controller(BUDGET).get_balance(&module), 114);
}

fn module_with_three_recipients_owed_100(balance: u64) -> Module {
    let mut module = new_module();
    controller(BUDGET).refill_budget(&mut module, &balance);
    assert!(controller(BUDGET).set_budget_auto_payment(&mut module, 0, &10));
    for user_id in 1..=3u64 {
        assert!(controller(BUDGET).add_pull_recipient(&mut module, 0, &user_id, &10, &(70 + user_id)));
    }
    module
}

#[test]
fn auto_payment_pays_until_the_budget_is_empty() {
    let mut module = module_with_three_recipients_owed_100(150);
    assert_eq!(module.active_budget_auto_payments(), vec![BUDGET]);
    let third_before = recipient_of(&module, BUDGET, 3);

    module.try_pay_reward(10);

    // The first is paid in full.
    assert_eq!(module.free_balance(71), 100);
    assert_eq!(recipient_of(&module, BUDGET, 1).unpaid_reward, 0);
    assert_eq!(recipient_of(&module, BUDGET, 1).last_payment_block, 10);
    // The second is paid what was left, and is still owed the rest.
    assert_eq!(module.free_balance(72), 50);
    assert_eq!(recipient_of(&module, BUDGET, 2).unpaid_reward, 50);
    assert_eq!(recipient_of(&module, BUDGET, 2).last_payment_block, 10);
    // The third was not reached: its record is as it was, and it is owed all.
    assert_eq!(module.free_balance(73), 0);
    assert_eq!(recipient_of(&module, BUDGET, 3), third_before);
    assert_eq!(Calculations::get_current_reward(&recipient_of(&module, BUDGET, 3), 10), 100);
    // The budget is empty and the next payment is planned.
    assert_eq!(controller(BUDGET).get_balance(&module), 0);
    assert_eq!(
        module.budgets(BUDGET).auto_payment,
        Some(BudgetAutoPayment { period: 10, next_auto_payment: 20 })
    );

    // At the next payment the rest is paid, as far as the budget goes.
    controller(BUDGET).refill_budget(&mut module, &1000);
    module.try_pay_reward(20);
    assert_eq!(module.free_balance(71), 200);
    assert_eq!(module.free_balance(72), 200);
    assert_eq!(module.free_balance(73), 200);
    assert_eq!(controller(BUDGET).get_balance(&module), 1000 - 100 - 150 - 200);
}

#[test]
fn auto_payment_waits_for_its_block() {
    let mut module = module_with_three_recipients_owed_100(1000);
    module.try_pay_reward(9);
    assert_eq!(module.free_balance(71), 0);
    assert_eq!(controller(BUDGET).get_balance(&module), 1000);
    module.try_pay_reward(10);
    assert_eq!(module.free_balance(71), 100);
    assert_eq!(module.free_balance(72), 100);
    assert_eq!(module.free_balance(73), 100);
    assert_eq!(controller(BUDGET).get_balance(&module), 700);
}

#[test]
fn auto_payment_passes_over_recipients_without_an_account() {
    let mut module = new_module();
    controller(BUDGET).refill_budget(&mut module, &1000);
    assert!(controller(BUDGET).set_budget_auto_payment(&mut module, 0, &10));
    assert!(controller(BUDGET).add_recipient(&mut module, 0, &1, &10));
    assert!(controller(BUDGET).add_pull_recipient(&mut module, 0, &2, &10, &72));
    let first_before = recipient_of(&module, BUDGET, 1);
    module.try_pay_reward(10);
    assert_eq!(recipient_of(&module, BUDGET, 1), first_before);
    assert_eq!(module.free_balance(72), 100);
    assert_eq!(controller(BUDGET).get_balance(&module), 900);
}

#[test]
fn auto_payment_needs_a_budget() {
    let mut module = new_module();
    assert!(!controller(BUDGET).set_budget_auto_payment(&mut module, 0, &10));
    assert_eq!(module.active_budget_auto_payments(), Vec::<u64>::new());
}

#[test]
fn on_finalize_refills_before_it_pays() {
    let mut module = new_module();
    controller(BUDGET).refill_budget(&mut module, &0);
    assert!(controller(BUDGET).set_budget_periodic_refill(&mut module, 0, &10, &60));
    assert!(controller(BUDGET).set_budget_auto_payment(&mut module, 0, &10));
    assert!(controller(BUDGET).add_pull_recipient(&mut module, 0, &1, &10, &71));
    module.on_finalize(10);
    // The refill of this block is there to be paid out.
    assert_eq!(module.free_balance(71), 60);
    assert_eq!(controller(BUDGET).get_balance(&module), 0);
    assert_eq!(recipient_of(&module, BUDGET, 1).unpaid_reward, 40);
}

#[test]
fn run_to_block_finalizes_every_block_on_the_way() {
    let mut module = new_module();
    controller(BUDGET).refill_budget(&mut module, &0);
    assert!(controller(BUDGET).set_budget_periodic_refill(&mut module, 0, &3, &5));
    // The blocks 0 to 9 are finalized: refills at 3, 6 and 9.
    assert_eq!(run_to_block(&mut module, 0, 10), 10);
    assert_eq!(controller(BUDGET).get_balance(&module), 15);
    // Going back does nothing.
    assert_eq!(run_to_block(&mut module, 10, 4), 10);
    assert_eq!(controller(BUDGET).get_balance(&module), 15);
}

#[test]
fn every_due_budget_is_planned_again_and_the_others_wait() {
    let mut module = new_module();
    for (budget_type, balance) in [(1u64, 30u64), (2, 0), (3, 500)] {
        controller(budget_type).set_budget(&mut module, &balance);
        assert!(controller(budget_type).add_pull_recipient(
            &mut module,
            0,
            &budget_type,
            &10,
            &(70 + budget_type)
        ));
    }
    assert!(controller(1).set_budget_auto_payment(&mut module, 0, &10));
    assert!(controller(2).set_budget_auto_payment(&mut module, 0, &10));
    assert!(controller(3).set_budget_auto_payment(&mut module, 0, &15));
    let waiting = module.budgets(3);
    let waiting_recipient = recipient_of(&module, 3, 3);

    module.try_pay_reward(10);

    // The first budget paid what it had, the second had nothing: both are planned again.
    assert_eq!(module.free_balance(71), 30);
    assert_eq!(recipient_of(&module, 1, 1).unpaid_reward, 70);
    assert_eq!(module.free_balance(72), 0);
    assert_eq!(Calculations::get_current_reward(&recipient_of(&module, 2, 2), 10), 100);
    for budget_type in [1u64, 2] {
        assert_eq!(
            module.budgets(budget_type).auto_payment,
            Some(BudgetAutoPayment { period: 10, next_auto_payment: 20 })
        );
    }
    // The third is not due.
    assert_eq!(module.budgets(3), waiting);
    assert_eq!(recipient_of(&module, 3, 3), waiting_recipient);
    assert_eq!(module.free_balance(73), 0);

    // A plan that would pass the last block is held at it.
    assert!(controller(3).set_budget_auto_payment(&mut module, u64::MAX - 5, &5));
    module.try_pay_reward(u64::MAX);
    assert_eq!(
        module.budgets(3).auto_payment,
        Some(BudgetAutoPayment { period: 5, next_auto_payment: u64::MAX })
    );
    assert_eq!(module.free_balance(73), 500);
}
