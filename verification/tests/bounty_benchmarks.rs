use runtime_modules::bounty::benchmarking::{get_byte, handle_from_id, member_funded_account};
use runtime_modules::bounty::{
    BountyActor, BountyCreationParameters, BountyMilestone, Event, Module,
};
use runtime_modules::common::RawOrigin;
use runtime_modules::ledger::AccountId;

// The account that the measured member acts from.
const MEMBER_ACCOUNT: u64 = 1;

// An engine at block 0 that takes a bounty without a cherry.
fn build_test_externalities() -> Module {
    Module::new(0, 50, 2)
}

fn run_to_block(now: &mut u64, target_block: u64) {
    while *now < target_block {
        *now += 1;
    }
}

fn usable_balance(module: &Module, account_id: u64) -> u64 {
    module.free_balance(AccountId::External(account_id))
}

#[test]
fn create_bounty_by_council() {
    for i in [1usize, 50, 50000] {
        let mut module = build_test_externalities();
        let metadata = vec![0u8].repeat(i);
        let cherry = 100;

        module.set_council_budget(cherry);

        let params = BountyCreationParameters {
            work_period: 1,
            judging_period: 1,
            cherry,
            ..Default::default()
        };

        let event = module.create_bounty(0, RawOrigin::Root, params, metadata);

        let bounty_id = 1;
        assert!(module.bounties(bounty_id).is_some());
        assert_eq!(module.bounty_count(), 1); // Bounty counter was updated.
        assert_eq!(event, Ok(Event::BountyCreated(bounty_id, params)));
    }
}

#[test]
fn create_bounty_by_member() {
    for i in [1usize, 50, 50000] {
        let mut module = build_test_externalities();
        let metadata = vec![0u8].repeat(i);
        let cherry = 100;

        let (account_id, member_id) = member_funded_account(&mut module, MEMBER_ACCOUNT, 0);

        module.set_council_budget(cherry);

        let params = BountyCreationParameters {
            work_period: 1,
            judging_period: 1,
            cherry,
            creator: BountyActor::Member(member_id),
            ..Default::default()
        };

        let event = module.create_bounty(0, RawOrigin::Signed(account_id), params, metadata);

        let bounty_id = 1;
        assert!(module.bounties(bounty_id).is_some());
        assert_eq!(module.bounty_count(), 1); // Bounty counter was updated.
        assert_eq!(event, Ok(Event::BountyCreated(bounty_id, params)));
    }
}

#[test]
fn cancel_bounty_by_council() {
    let mut module = build_test_externalities();
    let cherry = 100;
    let max_amount = 1000;

    module.set_council_budget(cherry);

    let creator = BountyActor::Council;
    let params = BountyCreationParameters {
        work_period: 1,
        judging_period: 1,
        cherry,
        creator,
        max_amount,
        ..Default::default()
    };

    module.create_bounty(0, RawOrigin::Root, params, Vec::new()).unwrap();

    let bounty_id = module.bounty_count();
    assert!(module.bounties(bounty_id).is_some());

    let event = module.cancel_bounty(0, RawOrigin::Root, creator, bounty_id);

    let bounty = module.bounties(bounty_id).unwrap();
    assert!(matches!(bounty.milestone, BountyMilestone::Canceled));
    assert_eq!(event, Ok(Event::BountyCanceled(bounty_id, creator)));
}

#[test]
fn cancel_bounty_by_member() {
    let mut module = build_test_externalities();
    let cherry = 100;
    let max_amount = 1000;
    let (account_id, member_id) = member_funded_account(&mut module, MEMBER_ACCOUNT, 0);

    module.set_council_budget(cherry);

    let creator = BountyActor::Member(member_id);

    let params = BountyCreationParameters {
        work_period: 1,
        judging_period: 1,
        cherry,
        creator,
        max_amount,
        ..Default::default()
    };

    module.create_bounty(0, RawOrigin::Signed(account_id), params, Vec::new()).unwrap();

    let bounty_id = module.bounty_count();
    assert!(module.bounties(bounty_id).is_some());

    let event = module.cancel_bounty(0, RawOrigin::Signed(account_id), creator, bounty_id);

    let bounty = module.bounties(bounty_id).unwrap();
    assert!(matches!(bounty.milestone, BountyMilestone::Canceled));
    assert_eq!(event, Ok(Event::BountyCanceled(bounty_id, creator)));
}

#[test]
fn veto_bounty() {
    let mut module = build_test_externalities();
    let max_amount = 1000;

    let params = BountyCreationParameters {
        work_period: 1,
        judging_period: 1,
        max_amount,
        ..Default::default()
    };

    module.create_bounty(0, RawOrigin::Root, params, Vec::new()).unwrap();

    let bounty_id = module.bounty_count();
    assert!(module.bounties(bounty_id).is_some());

    let event = module.veto_bounty(0, RawOrigin::Root, bounty_id);

    let bounty = module.bounties(bounty_id).unwrap();
    assert!(matches!(bounty.milestone, BountyMilestone::Canceled));
    assert_eq!(event, Ok(Event::BountyVetoed(bounty_id)));
}

#[test]
fn fund_bounty() {
    let mut module = build_test_externalities();
    let max_amount = 100;

    let params = BountyCreationParameters {
        work_period: 1,
        judging_period: 1,
        max_amount,
        ..Default::default()
    };
    // should reach default max bounty funding amount
    let amount = 100;

    let (account_id, member_id) = member_funded_account(&mut module, MEMBER_ACCOUNT, 0);

    module.create_bounty(0, RawOrigin::Root, params, Vec::new()).unwrap();

    let bounty_id = module.bounty_count();
    assert!(module.bounties(bounty_id).is_some());

    let event = module.fund_bounty(
        0,
        RawOrigin::Signed(account_id),
        BountyActor::Member(member_id),
        bounty_id,
        amount,
    );

    assert_eq!(usable_balance(&module, account_id), u64::MAX - amount);
    assert_eq!(event, Ok(Event::BountyMaxFundingReached(bounty_id)));
}

#[test]
fn withdraw_member_funding() {
    let mut module = build_test_externalities();
    let mut now = 0;
    let funding_period = 1;
    let bounty_amount = 200;

    let params = BountyCreationParameters {
        funding_period: Some(funding_period),
        work_period: 1,
        judging_period: 1,
        max_amount: bounty_amount,
        min_amount: bounty_amount,
        ..Default::default()
    };
    let amount = 100;

    let (account_id, member_id) = member_funded_account(&mut module, MEMBER_ACCOUNT, 0);

    module.create_bounty(now, RawOrigin::Root, params, Vec::new()).unwrap();

    let bounty_id = module.bounty_count();
    assert!(module.bounties(bounty_id).is_some());

    module
        .fund_bounty(
            now,
            RawOrigin::Signed(account_id),
            BountyActor::Member(member_id),
            bounty_id,
            amount,
        )
        .unwrap();

    run_to_block(&mut now, funding_period + 1);

    let event = module.withdraw_funding(
        now,
        RawOrigin::Signed(account_id),
        BountyActor::Member(member_id),
        bounty_id,
    );

    assert_eq!(usable_balance(&module, account_id), u64::MAX);
    assert_eq!(event, Ok(Event::BountyRemoved(bounty_id)));
}

#[test]
fn withdraw_creator_funding_by_council() {
    let mut module = build_test_externalities();
    let max_amount = 1000;
    let cherry = 100;

    module.set_council_budget(cherry);

    let creator = BountyActor::Council;
    let params = BountyCreationParameters {
        work_period: 1,
        judging_period: 1,
        cherry,
        max_amount,
        creator,
        ..Default::default()
    };

    module.create_bounty(0, RawOrigin::Root, params, Vec::new()).unwrap();

    let bounty_id = module.bounty_count();
    assert!(module.bounties(bounty_id).is_some());

    module.cancel_bounty(0, RawOrigin::Root, creator, bounty_id).unwrap();

    let event = module.withdraw_creator_funding(0, RawOrigin::Root, creator, bounty_id);

    assert!(module.bounties(bounty_id).is_none());
    assert_eq!(event, Ok(Event::BountyRemoved(bounty_id)));
}

#[test]
fn withdraw_creator_funding_by_member() {
    let mut module = build_test_externalities();
    let max_amount = 1000;
    let cherry = 100;
    let (account_id, member_id) = member_funded_account(&mut module, MEMBER_ACCOUNT, 0);

    module.set_council_budget(cherry);

    let creator = BountyActor::Member(member_id);

    let params = BountyCreationParameters {
        work_period: 1,
        judging_period: 1,
        cherry,
        creator,
        max_amount,
        ..Default::default()
    };

    module.create_bounty(0, RawOrigin::Signed(account_id), params, Vec::new()).unwrap();

    let bounty_id = module.bounty_count();
    assert!(module.bounties(bounty_id).is_some());

    module.cancel_bounty(0, RawOrigin::Signed(account_id), creator, bounty_id).unwrap();

    let event =
        module.withdraw_creator_funding(0, RawOrigin::Signed(account_id), creator, bounty_id);

    assert!(module.bounties(bounty_id).is_none());
    assert_eq!(event, Ok(Event::BountyRemoved(bounty_id)));
}

#[test]
fn get_byte_takes_the_bytes_from_the_least_significant() {
    assert_eq!(get_byte(0x1234_5678, 0), 0x78);
    assert_eq!(get_byte(0x1234_5678, 1), 0x56);
    assert_eq!(get_byte(0x1234_5678, 2), 0x34);
    assert_eq!(get_byte(0x1234_5678, 3), 0x12);
    assert_eq!(get_byte(u32::MAX, 3), 0xff);
    assert_eq!(get_byte(0, 2), 0);
}

#[test]
fn handle_from_id_is_the_four_bytes_of_the_index() {
    assert_eq!(handle_from_id(0), vec![0, 0, 0, 0]);
    assert_eq!(handle_from_id(1), vec![1, 0, 0, 0]);
    assert_eq!(handle_from_id(0x0102_0304), vec![4, 3, 2, 1]);
    assert_ne!(handle_from_id(256), handle_from_id(1));
}

#[test]
fn member_funded_account_binds_the_member_and_fills_the_account() {
    let mut module = build_test_externalities();
    assert_eq!(module.increase_account_balance(9, 40), Ok(()));
    assert_eq!(module.increase_account_balance(7, 5), Ok(()));
    assert_eq!(member_funded_account(&mut module, 7, 3), (7, 3));
    // The account holds the largest balance, whatever it and the others held.
    assert_eq!(usable_balance(&module, 7), u64::MAX);
    assert_eq!(usable_balance(&module, 9), 40);
    assert_eq!(module.total_issuance(), u64::MAX as u128 + 40);
    // The council's budget can be set beside it.
    module.set_council_budget(100);
    assert_eq!(module.get_council_budget(), 100);
    // The member acts from the account.
    let params = BountyCreationParameters {
        work_period: 1,
        judging_period: 1,
        creator: BountyActor::Member(3),
        max_amount: 10,
        ..Default::default()
    };
    assert!(module.create_bounty(0, RawOrigin::Signed(7), params, Vec::new()).is_ok());
}
