use runtime_modules::bounty::state::{BountyAction, BountyStage};
use runtime_modules::bounty::{
    calculate_stake_slash, ensure_bounty_stage, get_bounty_stage, Bounty, BountyActor,
    BountyCreationParameters, BountyMilestone, Error, Event, Module,
};
use runtime_modules::common::{ensure_root, ensure_signed, BadOrigin, RawOrigin};
use runtime_modules::ledger::{AccountId, LedgerError};

fn engine() -> Module {
    let mut module = Module::new(10, 50, 2);
    for id in 1..=4u64 {
        module.set_member_account(id, id);
        module.increase_account_balance(id, 1000).unwrap();
    }
    module.set_council_budget(1000);
    module
}

fn params() -> BountyCreationParameters {
    BountyCreationParameters {
        creator: BountyActor::Council,
        cherry: 100,
        creator_funding: 0,
        min_amount: 0,
        max_amount: 500,
        entrant_stake: 0,
        funding_period: Some(10),
        work_period: 20,
        judging_period: 5,
    }
}

fn bounty_with(milestone: BountyMilestone, total_funding: u64) -> Bounty {
    Bounty {
        creation_params: BountyCreationParameters { creator_funding: 30, ..params() },
        total_funding,
        milestone,
        active_work_entry_count: 0,
        cherry_remaining: 100,
        creator_funding_remaining: 30,
        forfeited_stake: 0,
    }
}

// What the escrow of the bounty is to hold by the bounty's own account of it, where no member
// has staked.
fn owed_from_escrow(module: &Module, bounty_id: u64) -> u64 {
    let bounty = module.bounties(bounty_id).expect("the bounty exists");
    bounty.cherry_remaining
        + bounty.creator_funding_remaining
        + module.contribution_total(bounty_id)
        + bounty.forfeited_stake
}

#[test]
fn origins_are_told_apart() {
    assert_eq!(ensure_signed(RawOrigin::Signed(5)), Ok(5));
    assert_eq!(ensure_signed(RawOrigin::Root), Err(BadOrigin));
    assert_eq!(ensure_signed(RawOrigin::Unsigned), Err(BadOrigin));
    assert_eq!(ensure_root(RawOrigin::Root), Ok(()));
    assert_eq!(ensure_root(RawOrigin::Signed(5)), Err(BadOrigin));
    assert_eq!(ensure_root(RawOrigin::Unsigned), Err(BadOrigin));
}

#[test]
fn stake_slash_follows_the_elapsed_part_of_the_work_period() {
    // Nothing is lost in the block of the announcement.
    assert_eq!(calculate_stake_slash(100, 0, 1000), 0);
    // Half is lost at half of the period.
    assert_eq!(calculate_stake_slash(100, 500, 1000), 50);
    // A third, rounded down.
    assert_eq!(calculate_stake_slash(100, 333, 1000), 33);
    assert_eq!(100 - calculate_stake_slash(100, 333, 1000), 67);
    // All is lost when the period is over.
    assert_eq!(calculate_stake_slash(100, 1000, 1000), 100);
    assert_eq!(calculate_stake_slash(100, 5000, 1000), 100);
    // The largest amounts do not overflow.
    assert_eq!(calculate_stake_slash(u64::MAX, u64::MAX - 1, u64::MAX), u64::MAX - 1);
    assert_eq!(calculate_stake_slash(7, 1, 2), 3);
}

#[test]
fn stage_follows_milestone_and_block() {
    let created = bounty_with(BountyMilestone::Created { created_at: 5 }, 30);
    assert_eq!(get_bounty_stage(&created, 5), BountyStage::Funding { has_contributions: false });
    assert_eq!(get_bounty_stage(&created, 15), BountyStage::Funding { has_contributions: false });
    assert_eq!(get_bounty_stage(&created, 16), BountyStage::Withdrawal { funding_failed: true });
    let funded = bounty_with(BountyMilestone::Created { created_at: 5 }, 31);
    assert_eq!(get_bounty_stage(&funded, 15), BountyStage::Funding { has_contributions: true });
    let open_ended = Bounty {
        creation_params: BountyCreationParameters { funding_period: None, ..params() },
        ..created
    };
    assert_eq!(
        get_bounty_stage(&open_ended, u64::MAX),
        BountyStage::Funding { has_contributions: true }
    );

    let reached = bounty_with(
        BountyMilestone::BountyMaxFundingReached {
            max_funding_reached_at: 100,
            reached_on_creation: false,
        },
        500,
    );
    assert_eq!(get_bounty_stage(&reached, 100), BountyStage::WorkSubmission);
    assert_eq!(get_bounty_stage(&reached, 120), BountyStage::WorkSubmission);
    assert_eq!(get_bounty_stage(&reached, 121), BountyStage::Judgment);
    assert_eq!(get_bounty_stage(&reached, 125), BountyStage::Judgment);
    assert_eq!(get_bounty_stage(&reached, 126), BountyStage::Withdrawal { funding_failed: false });

    let canceled = bounty_with(BountyMilestone::Canceled, 30);
    assert_eq!(get_bounty_stage(&canceled, 0), BountyStage::Withdrawal { funding_failed: true });
    let withdrawn_failed = bounty_with(BountyMilestone::CreatorFundsWithdrawn, 499);
    assert_eq!(
        get_bounty_stage(&withdrawn_failed, 0),
        BountyStage::Withdrawal { funding_failed: true }
    );
    let withdrawn_funded = bounty_with(BountyMilestone::CreatorFundsWithdrawn, 500);
    assert_eq!(
        get_bounty_stage(&withdrawn_funded, 0),
        BountyStage::Withdrawal { funding_failed: false }
    );
}

#[test]
fn stage_table_allows_each_action_in_its_stage() {
    let stages = [
        BountyStage::Funding { has_contributions: false },
        BountyStage::Funding { has_contributions: true },
        BountyStage::WorkSubmission,
        BountyStage::Judgment,
        BountyStage::Withdrawal { funding_failed: true },
        BountyStage::Withdrawal { funding_failed: false },
    ];
    let table = [
        (BountyAction::Fund, [true, true, false, false, false, false]),
        (BountyAction::Cancel, [true, false, false, false, false, false]),
        (BountyAction::Veto, [true, false, false, false, false, false]),
        (BountyAction::WithdrawFunding, [false, false, false, false, true, false]),
        (BountyAction::WithdrawCreatorFunding, [false, false, false, false, true, true]),
        (BountyAction::AnnounceWorkEntry, [false, false, true, false, false, false]),
        (BountyAction::WithdrawWorkEntry, [false, false, true, false, false, false]),
    ];
    for (action, allowed) in table {
        for (stage, allowed) in stages.iter().zip(allowed) {
            let expected = if allowed { Ok(()) } else { Err(Error::InvalidBountyStage) };
            assert_eq!(ensure_bounty_stage(*stage, action), expected);
        }
    }
}

#[test]
fn funding_to_the_target_closes_the_funding() {
    let mut module = engine();
    module.create_bounty(1, RawOrigin::Root, params(), Vec::new()).unwrap();
    assert_eq!(
        module.fund_bounty(2, RawOrigin::Signed(1), BountyActor::Member(1), 1, 200),
        Ok(Event::BountyFunded(1, BountyActor::Member(1), 200))
    );
    // Exactly to the target.
    assert_eq!(
        module.fund_bounty(3, RawOrigin::Signed(2), BountyActor::Member(2), 1, 300),
        Ok(Event::BountyMaxFundingReached(1))
    );
    assert_eq!(
        module.bounties(1).unwrap().milestone,
        BountyMilestone::BountyMaxFundingReached {
            max_funding_reached_at: 3,
            reached_on_creation: false
        }
    );
    // No funding is taken from then on.
    let before = module.bounties(1);
    for now in [3, 4, 100, 1000] {
        assert_eq!(
            module.fund_bounty(now, RawOrigin::Signed(3), BountyActor::Member(3), 1, 100),
            Err(Error::InvalidBountyStage)
        );
    }
    assert_eq!(module.bounties(1), before);
    assert_eq!(module.free_balance(AccountId::External(3)), 1000);
}

#[test]
fn bounty_funded_on_creation_cannot_be_canceled() {
    let mut module = engine();
    let created = module.create_bounty(
        0,
        RawOrigin::Root,
        BountyCreationParameters { cherry: 100, max_amount: 100, creator_funding: 100, ..params() },
        Vec::new(),
    );
    assert!(created.is_ok());
    assert_eq!(
        module.bounties(1).unwrap().milestone,
        BountyMilestone::BountyMaxFundingReached {
            max_funding_reached_at: 0,
            reached_on_creation: true
        }
    );
    assert_eq!(
        module.cancel_bounty(0, RawOrigin::Root, BountyActor::Council, 1),
        Err(Error::InvalidBountyStage)
    );
    assert_eq!(module.veto_bounty(0, RawOrigin::Root, 1), Err(Error::InvalidBountyStage));
}

#[test]
fn rejected_creation_changes_nothing() {
    let mut module = engine();
    assert_eq!(
        module.create_bounty(
            0,
            RawOrigin::Root,
            BountyCreationParameters { work_period: 0, ..params() },
            Vec::new()
        ),
        Err(Error::WorkPeriodCannotBeZero)
    );
    assert_eq!(module.bounty_count(), 0);
    assert_eq!(module.bounties(1), None);
    assert_eq!(module.get_council_budget(), 1000);
    assert_eq!(module.free_balance(Module::bounty_account_id(1)), 0);
}

#[test]
fn escrow_holds_what_the_bounty_owes_at_every_step() {
    let mut module = engine();
    let issued = module.total_issuance();
    module
        .create_bounty(
            1,
            RawOrigin::Signed(1),
            BountyCreationParameters {
                creator: BountyActor::Member(1),
                creator_funding: 70,
                ..params()
            },
            Vec::new(),
        )
        .unwrap();
    let escrow = Module::bounty_account_id(1);
    assert_eq!(module.free_balance(escrow), 170);
    assert_eq!(module.free_balance(escrow), owed_from_escrow(&module, 1));

    module.fund_bounty(2, RawOrigin::Signed(2), BountyActor::Member(2), 1, 70).unwrap();
    module.fund_bounty(2, RawOrigin::Signed(3), BountyActor::Member(3), 1, 110).unwrap();
    module.fund_bounty(3, RawOrigin::Root, BountyActor::Council, 1, 120).unwrap();
    assert_eq!(module.contribution_total(1), 300);
    assert_eq!(module.free_balance(escrow), 470);
    assert_eq!(module.free_balance(escrow), owed_from_escrow(&module, 1));

    // The funding period runs out at block 11.
    assert_eq!(
        module.withdraw_funding(11, RawOrigin::Signed(2), BountyActor::Member(2), 1),
        Err(Error::InvalidBountyStage)
    );
    // 100 * 70 / 300 of the cherry.
    module.withdraw_funding(12, RawOrigin::Signed(2), BountyActor::Member(2), 1).unwrap();
    assert_eq!(module.free_balance(AccountId::External(2)), 1000 + 23);
    assert_eq!(module.free_balance(escrow), owed_from_escrow(&module, 1));
    assert_eq!(module.bounties(1).unwrap().cherry_remaining, 77);
    assert_eq!(module.bounties(1).unwrap().milestone, BountyMilestone::Canceled);

    module.withdraw_creator_funding(12, RawOrigin::Signed(1), BountyActor::Member(1), 1).unwrap();
    assert_eq!(module.free_balance(AccountId::External(1)), 1000 - 100);
    assert_eq!(module.free_balance(escrow), owed_from_escrow(&module, 1));
    assert_eq!(
        module.withdraw_creator_funding(13, RawOrigin::Signed(1), BountyActor::Member(1), 1),
        Err(Error::NothingToWithdraw)
    );

    // 100 * 120 / 300 of the cherry.
    module.withdraw_funding(13, RawOrigin::Root, BountyActor::Council, 1).unwrap();
    assert_eq!(module.get_council_budget(), 1000 + 40);
    assert_eq!(module.free_balance(escrow), owed_from_escrow(&module, 1));

    // The last funder takes what is left of the cherry: 100 - 23 - 40, not the 36 of its part.
    assert_eq!(
        module.withdraw_funding(14, RawOrigin::Signed(3), BountyActor::Member(3), 1),
        Ok(Event::BountyRemoved(1))
    );
    assert_eq!(module.free_balance(AccountId::External(3)), 1000 + 37);
    assert_eq!(module.free_balance(escrow), 0);
    assert_eq!(module.bounties(1), None);
    // Nothing was created and nothing was lost.
    assert_eq!(module.total_issuance(), issued);
}

#[test]
fn a_funder_cannot_withdraw_twice() {
    let mut module = engine();
    module.create_bounty(0, RawOrigin::Root, params(), Vec::new()).unwrap();
    module.fund_bounty(0, RawOrigin::Signed(1), BountyActor::Member(1), 1, 100).unwrap();
    module.fund_bounty(0, RawOrigin::Signed(2), BountyActor::Member(2), 1, 100).unwrap();
    module.withdraw_funding(11, RawOrigin::Signed(1), BountyActor::Member(1), 1).unwrap();
    assert_eq!(
        module.withdraw_funding(11, RawOrigin::Signed(1), BountyActor::Member(1), 1),
        Err(Error::NotBountyFunder)
    );
    assert_eq!(module.free_balance(AccountId::External(1)), 1050);
}

#[test]
fn slashed_stake_stays_with_the_bounty() {
    let mut module = engine();
    module
        .create_bounty(
            0,
            RawOrigin::Root,
            BountyCreationParameters {
                creator_funding: 500,
                entrant_stake: 90,
                work_period: 30,
                ..params()
            },
            Vec::new(),
        )
        .unwrap();
    let escrow = Module::bounty_account_id(1);
    assert_eq!(
        module.announce_work_entry(5, RawOrigin::Signed(1), 1, Some(1), 1),
        Ok(Event::WorkEntryAnnounced(1, 1, 1, Some(1)))
    );
    // Another member may stake from an account of its own.
    assert_eq!(
        module.announce_work_entry(6, RawOrigin::Signed(2), 2, Some(2), 1),
        Ok(Event::WorkEntryAnnounced(2, 1, 2, Some(2)))
    );
    assert_eq!(module.free_balance(escrow), 100 + 500 + 2 * 90);
    assert_eq!(module.bounties(1).unwrap().active_work_entry_count, 2);
    // The entry of another member is not the caller's.
    assert_eq!(
        module.withdraw_work_entry(10, RawOrigin::Signed(2), 2, 1, 1),
        Err(Error::WorkEntryDoesntExist)
    );
    // Ten of thirty blocks have passed: a third of the stake is lost.
    assert_eq!(
        module.withdraw_work_entry(15, RawOrigin::Signed(1), 1, 1, 1),
        Ok(Event::WorkEntryWithdrawn(1, 1, 1))
    );
    assert_eq!(module.free_balance(AccountId::External(1)), 1000 - 30);
    let bounty = module.bounties(1).unwrap();
    assert_eq!(bounty.forfeited_stake, 30);
    assert_eq!(bounty.active_work_entry_count, 1);
    assert_eq!(module.free_balance(escrow), 100 + 500 + 90 + 30);
    assert_eq!(module.entries(1, 1, 1), None);
    assert_eq!(module.entries(1, 2, 2).map(|entry| entry.staked_amount), Some(90));
    // The room that the withdrawn entry left can be taken again.
    assert!(module.announce_work_entry(16, RawOrigin::Signed(3), 3, Some(3), 1).is_ok());
    assert_eq!(
        module.announce_work_entry(16, RawOrigin::Signed(4), 4, Some(4), 1),
        Err(Error::MaxWorkEntryLimitReached)
    );
    // After the work period neither announcing nor withdrawing is taken.
    assert_eq!(
        module.announce_work_entry(31, RawOrigin::Signed(1), 1, Some(1), 1),
        Err(Error::InvalidBountyStage)
    );
    assert_eq!(
        module.withdraw_work_entry(31, RawOrigin::Signed(2), 2, 1, 2),
        Err(Error::InvalidBountyStage)
    );
}

#[test]
fn creator_takes_its_funding_back_when_judging_is_over() {
    let mut module = engine();
    module
        .create_bounty(
            0,
            RawOrigin::Root,
            BountyCreationParameters { creator_funding: 200, ..params() },
            Vec::new(),
        )
        .unwrap();
    assert_eq!(
        module.fund_bounty(1, RawOrigin::Signed(1), BountyActor::Member(1), 1, 300),
        Ok(Event::BountyMaxFundingReached(1))
    );
    // Work until block 21, judging until block 26.
    assert_eq!(
        module.withdraw_creator_funding(26, RawOrigin::Root, BountyActor::Council, 1),
        Err(Error::InvalidBountyStage)
    );
    assert_eq!(
        module.withdraw_creator_funding(27, RawOrigin::Root, BountyActor::Council, 1),
        Ok(Event::BountyCreatorFundingWithdrawal(1, BountyActor::Council))
    );
    assert_eq!(module.get_council_budget(), 1000 - 100);
    assert_eq!(module.bounties(1).unwrap().milestone, BountyMilestone::CreatorFundsWithdrawn);
    // The funding did not fail: the funder's contribution stays.
    assert_eq!(
        module.withdraw_funding(28, RawOrigin::Signed(1), BountyActor::Member(1), 1),
        Err(Error::InvalidBountyStage)
    );
    assert_eq!(module.free_balance(Module::bounty_account_id(1)), 100 + 300);
}

#[test]
fn members_act_from_their_controller_account_only() {
    let mut module = engine();
    module.create_bounty(0, RawOrigin::Root, params(), Vec::new()).unwrap();
    // The account of another member.
    assert_eq!(
        module.fund_bounty(0, RawOrigin::Signed(2), BountyActor::Member(1), 1, 100),
        Err(Error::BadOrigin)
    );
    // A member that is not known.
    assert_eq!(
        module.fund_bounty(0, RawOrigin::Signed(9), BountyActor::Member(9), 1, 100),
        Err(Error::BadOrigin)
    );
    assert_eq!(
        module.fund_bounty(0, RawOrigin::Unsigned, BountyActor::Member(1), 1, 100),
        Err(Error::BadOrigin)
    );
    assert_eq!(
        module.fund_bounty(0, RawOrigin::Signed(1), BountyActor::Council, 1, 100),
        Err(Error::BadOrigin)
    );
    assert!(module.fund_bounty(0, RawOrigin::Signed(1), BountyActor::Member(1), 1, 100).is_ok());
}

#[test]
fn council_budget_and_accounts_hold_up_to_the_largest_balance() {
    let mut module = Module::new(10, 50, 2);
    assert_eq!(module.increase_account_balance(1, u64::MAX - 5), Ok(()));
    // The budget is set whatever the accounts hold, and whatever it was.
    module.set_council_budget(u64::MAX);
    assert_eq!(module.get_council_budget(), u64::MAX);
    module.set_council_budget(2);
    assert_eq!(module.get_council_budget(), 2);
    assert_eq!(module.total_issuance(), u64::MAX as u128 - 3);
    // An account takes what it has room for.
    assert_eq!(module.increase_account_balance(1, 6), Err(LedgerError::Overflow));
    assert_eq!(module.free_balance(AccountId::External(1)), u64::MAX - 5);
    assert_eq!(module.increase_account_balance(1, 5), Ok(()));
    assert_eq!(module.increase_account_balance(2, u64::MAX), Ok(()));
    module.set_account_balance(2, 7);
    assert_eq!(module.free_balance(AccountId::External(2)), 7);
    assert_eq!(module.total_issuance(), u64::MAX as u128 + 9);
}

#[test]
fn ids_are_not_given_out_twice() {
    let mut module = engine();
    module.create_bounty(0, RawOrigin::Root, params(), Vec::new()).unwrap();
    module.cancel_bounty(0, RawOrigin::Root, BountyActor::Council, 1).unwrap();
    assert_eq!(
        module.withdraw_creator_funding(0, RawOrigin::Root, BountyActor::Council, 1),
        Ok(Event::BountyRemoved(1))
    );
    assert_eq!(module.bounties(1), None);
    assert_eq!(module.bounty_count(), 1);
    assert_eq!(
        module.create_bounty(5, RawOrigin::Root, params(), Vec::new()),
        Ok(Event::BountyCreated(2, params()))
    );
    assert_eq!(module.bounties(1), None);
    assert!(module.bounties(2).is_some());
    assert_eq!(module.bounty_count(), 2);
}

#[test]
fn a_payment_that_the_receiving_account_cannot_hold_is_refused() {
    let mut module = engine();
    module
        .create_bounty(
            0,
            RawOrigin::Root,
            BountyCreationParameters { funding_period: Some(10), ..params() },
            Vec::new(),
        )
        .unwrap();
    module.fund_bounty(0, RawOrigin::Signed(1), BountyActor::Member(1), 1, 100).unwrap();

    // The funder's account is filled up while its contribution is in escrow.
    module.set_account_balance(1, u64::MAX - 150);
    let bounty = module.bounties(1);
    assert_eq!(
        module.withdraw_funding(11, RawOrigin::Signed(1), BountyActor::Member(1), 1),
        Err(Error::Overflow)
    );
    assert_eq!(module.bounties(1), bounty);
    assert_eq!(module.contribution_by_bounty_by_actor(1, BountyActor::Member(1)), 100);
    assert_eq!(module.free_balance(Module::bounty_account_id(1)), 200);
    // With room for the contribution and the cherry it is paid.
    module.set_account_balance(1, u64::MAX - 200);
    assert!(module.withdraw_funding(11, RawOrigin::Signed(1), BountyActor::Member(1), 1).is_ok());
    assert_eq!(module.free_balance(AccountId::External(1)), u64::MAX);

    // The creator's refund.
    module
        .create_bounty(
            20,
            RawOrigin::Root,
            BountyCreationParameters { creator_funding: 60, ..params() },
            Vec::new(),
        )
        .unwrap();
    module.cancel_bounty(20, RawOrigin::Root, BountyActor::Council, 2).unwrap();
    module.set_council_budget(u64::MAX - 159);
    assert_eq!(
        module.withdraw_creator_funding(20, RawOrigin::Root, BountyActor::Council, 2),
        Err(Error::Overflow)
    );
    module.set_council_budget(u64::MAX - 160);
    assert_eq!(
        module.withdraw_creator_funding(20, RawOrigin::Root, BountyActor::Council, 2),
        Ok(Event::BountyRemoved(2))
    );
    assert_eq!(module.get_council_budget(), u64::MAX);
}

#[test]
fn a_stake_that_the_staking_account_cannot_hold_again_stays_in_escrow() {
    let mut module = engine();
    module
        .create_bounty(
            0,
            RawOrigin::Root,
            BountyCreationParameters {
                creator_funding: 500,
                entrant_stake: 90,
                work_period: 30,
                ..params()
            },
            Vec::new(),
        )
        .unwrap();
    module.announce_work_entry(0, RawOrigin::Signed(1), 1, Some(1), 1).unwrap();
    module.set_account_balance(1, u64::MAX - 89);
    assert_eq!(
        module.withdraw_work_entry(0, RawOrigin::Signed(1), 1, 1, 1),
        Err(Error::Overflow)
    );
    assert_eq!(module.entries(1, 1, 1).map(|entry| entry.staked_amount), Some(90));
    // A third of the stake is lost at a third of the period, and the rest finds room.
    assert_eq!(
        module.withdraw_work_entry(10, RawOrigin::Signed(1), 1, 1, 1),
        Ok(Event::WorkEntryWithdrawn(1, 1, 1))
    );
    assert_eq!(module.free_balance(AccountId::External(1)), u64::MAX - 29);
}

#[test]
fn an_escrow_takes_no_more_than_it_has_room_for() {
    let mut module = engine();
    module.set_council_budget(u64::MAX);
    module
        .create_bounty(
            0,
            RawOrigin::Root,
            BountyCreationParameters {
                creator_funding: u64::MAX - 300,
                max_amount: u64::MAX,
                ..params()
            },
            Vec::new(),
        )
        .unwrap();
    assert_eq!(module.free_balance(Module::bounty_account_id(1)), u64::MAX - 200);
    assert_eq!(
        module.fund_bounty(1, RawOrigin::Signed(1), BountyActor::Member(1), 1, 201),
        Err(Error::Overflow)
    );
    assert_eq!(module.free_balance(AccountId::External(1)), 1000);
    assert_eq!(module.contribution_by_bounty_by_actor(1, BountyActor::Member(1)), 0);
    assert_eq!(
        module.fund_bounty(1, RawOrigin::Signed(1), BountyActor::Member(1), 1, 200),
        Ok(Event::BountyFunded(1, BountyActor::Member(1), 200))
    );
    assert_eq!(module.free_balance(Module::bounty_account_id(1)), u64::MAX);

    // A stake finds no room either.
    module.set_council_budget(u64::MAX);
    module
        .create_bounty(
            2,
            RawOrigin::Root,
            BountyCreationParameters {
                creator_funding: u64::MAX - 150,
                max_amount: u64::MAX - 150,
                entrant_stake: 90,
                ..params()
            },
            Vec::new(),
        )
        .unwrap();
    assert_eq!(
        module.announce_work_entry(2, RawOrigin::Signed(2), 2, Some(2), 2),
        Err(Error::Overflow)
    );
    assert_eq!(module.free_balance(AccountId::External(2)), 1000);
    assert_eq!(module.bounties(2).map(|bounty| bounty.active_work_entry_count), Some(0));
}
