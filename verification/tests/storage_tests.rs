use runtime_modules::common::RawOrigin;
use runtime_modules::storage::bag_manager::BagManager;
use runtime_modules::storage::{
    AcceptPendingDataObjectsParams, BagId, BaggedDataObject, DataObject,
    DataObjectCreationParameters, DataObjectStatus, Error, Event, Module,
    PendingDataObjectStatus, StaticBagId, StorageBucket, StorageBucketOperatorStatus,
    UpdateStorageBucketForStaticBagsParams, UploadParametersObject, Voucher,
};
use std::collections::{BTreeMap, BTreeSet};

const LEAD: u64 = 100;
const WORKER: u64 = 1;
const WORKER_ACCOUNT: u64 = 11;

fn new_module(max_storage_bucket_number: u64) -> Module {
    let mut module = Module::new(max_storage_bucket_number);
    module.set_lead(LEAD);
    module.set_worker(WORKER, WORKER_ACCOUNT);
    module
}

fn voucher() -> Voucher {
    Voucher { size_limit: 100, objects_limit: 10, size_used: 0, objects_used: 0 }
}

fn pending(liaison: u64, deletion_prize: u64) -> DataObject {
    DataObject {
        status: DataObjectStatus::Pending(PendingDataObjectStatus { liaison }),
        deletion_prize,
    }
}

#[test]
fn storage_defaults_are_the_first_variants() {
    assert_eq!(BagId::default(), BagId::StaticBag(StaticBagId::Council));
    assert_eq!(StaticBagId::default(), StaticBagId::Council);
    assert_eq!(
        DataObjectStatus::default(),
        DataObjectStatus::Pending(PendingDataObjectStatus { liaison: 0 })
    );
    assert_eq!(StorageBucketOperatorStatus::default(), StorageBucketOperatorStatus::Missing);
    assert_eq!(Voucher::default(), Voucher { size_limit: 0, objects_limit: 0, size_used: 0, objects_used: 0 });
    assert_eq!(BaggedDataObject::default().data_object_id, 0);
}

#[test]
fn upload_needs_an_object() {
    let module = new_module(2);
    let empty = UploadParametersObject::default();
    assert_eq!(module.upload(RawOrigin::Signed(1), empty.clone()), Err(Error::NoObjectsOnUpload));
    assert_eq!(Module::validate_upload_parameter(&empty), Err(Error::NoObjectsOnUpload));
    let one = UploadParametersObject {
        object_creation: vec![DataObjectCreationParameters { size: 5, ipfs_content_id: vec![1] }],
        ..empty
    };
    assert_eq!(module.upload(RawOrigin::Signed(1), one), Ok(()));
}

#[test]
fn update_storage_buckets_for_static_bags_announces_the_relationship() {
    let module = new_module(2);
    let empty = UpdateStorageBucketForStaticBagsParams::default();
    assert_eq!(
        module.update_storage_buckets_for_static_bags(RawOrigin::Signed(LEAD), empty.clone()),
        Err(Error::UpdateStorageBucketForStaticBagsParamsIsEmpty)
    );
    let mut bags = BTreeMap::new();
    bags.insert(StaticBagId::Council, BTreeSet::from([1u64, 2]));
    let params = UpdateStorageBucketForStaticBagsParams { bags };
    assert_eq!(
        module.update_storage_buckets_for_static_bags(RawOrigin::Signed(WORKER_ACCOUNT), params.clone()),
        Err(Error::BadOrigin)
    );
    assert_eq!(
        module.update_storage_buckets_for_static_bags(RawOrigin::Signed(LEAD), params.clone()),
        Ok(Event::StorageBucketsUpdatedForStaticBags(params))
    );
}

#[test]
fn create_storage_bucket_counts_the_buckets() {
    let mut module = new_module(2);
    assert_eq!(
        module.create_storage_bucket(RawOrigin::Signed(LEAD), Some(WORKER), true, voucher()),
        Ok(Event::StorageBucketCreated(0, Some(WORKER), true, voucher()))
    );
    assert_eq!(
        module.storage_bucket_by_id(0),
        Some(StorageBucket {
            operator_status: StorageBucketOperatorStatus::InvitedStorageWorker(WORKER),
            accepting_new_bags: true,
            number_of_pending_data_objects: 0,
            voucher: voucher(),
        })
    );
    assert_eq!(
        module.create_storage_bucket(RawOrigin::Signed(LEAD), None, false, voucher()),
        Ok(Event::StorageBucketCreated(1, None, false, voucher()))
    );
    assert_eq!(
        module.storage_bucket_by_id(1).map(|bucket| bucket.operator_status),
        Some(StorageBucketOperatorStatus::Missing)
    );
    assert_eq!(module.storage_buckets_number(), 2);
    assert_eq!(module.next_storage_bucket_id(), 2);
    assert_eq!(
        module.create_storage_bucket(RawOrigin::Signed(LEAD), None, false, voucher()),
        Err(Error::MaxStorageNumberLimitExceeded)
    );
    assert_eq!(module.storage_buckets_number(), 2);
    assert_eq!(module.storage_bucket_by_id(2), None);
}

#[test]
fn create_storage_bucket_is_for_the_lead() {
    let mut module = new_module(2);
    for origin in [RawOrigin::Root, RawOrigin::Unsigned, RawOrigin::Signed(WORKER_ACCOUNT)] {
        assert_eq!(
            module.create_storage_bucket(origin, None, false, voucher()),
            Err(Error::BadOrigin)
        );
    }
    assert_eq!(module.storage_buckets_number(), 0);
    assert_eq!(module.ensure_working_group_leader_origin(RawOrigin::Signed(LEAD)), Ok(()));
}

#[test]
fn accept_storage_bucket_invitation_sets_the_operator() {
    let mut module = new_module(5);
    module.create_storage_bucket(RawOrigin::Signed(LEAD), Some(WORKER), true, voucher()).unwrap();
    module.create_storage_bucket(RawOrigin::Signed(LEAD), None, true, voucher()).unwrap();
    module.create_storage_bucket(RawOrigin::Signed(LEAD), Some(2), true, voucher()).unwrap();

    assert_eq!(
        module.accept_storage_bucket_invitation(RawOrigin::Signed(LEAD), WORKER, 0),
        Err(Error::BadOrigin)
    );
    assert_eq!(
        module.accept_storage_bucket_invitation(RawOrigin::Signed(WORKER_ACCOUNT), WORKER, 9),
        Err(Error::StorageBucketDoesntExist)
    );
    assert_eq!(
        module.accept_storage_bucket_invitation(RawOrigin::Signed(WORKER_ACCOUNT), WORKER, 1),
        Err(Error::NoStorageBucketInvitation)
    );
    assert_eq!(
        module.accept_storage_bucket_invitation(RawOrigin::Signed(WORKER_ACCOUNT), WORKER, 2),
        Err(Error::DifferentStorageProviderInvited)
    );
    assert_eq!(
        module.accept_storage_bucket_invitation(RawOrigin::Signed(WORKER_ACCOUNT), WORKER, 0),
        Ok(Event::StorageBucketInvitationAccepted(0, WORKER))
    );
    assert_eq!(
        module.storage_bucket_by_id(0).map(|bucket| bucket.operator_status),
        Some(StorageBucketOperatorStatus::StorageWorker(WORKER))
    );
    assert_eq!(
        module.accept_storage_bucket_invitation(RawOrigin::Signed(WORKER_ACCOUNT), WORKER, 0),
        Err(Error::StorageProviderAlreadySet)
    );
    assert_eq!(module.ensure_storage_bucket_exists(9), Err(Error::StorageBucketDoesntExist));
    assert_eq!(module.ensure_worker_origin(RawOrigin::Signed(WORKER_ACCOUNT), WORKER), Ok(()));
}

#[test]
fn calls_that_store_nothing_change_nothing() {
    let mut module = new_module(5);
    module.create_storage_bucket(RawOrigin::Signed(LEAD), Some(WORKER), true, voucher()).unwrap();
    let before = module.storage_bucket_by_id(0);
    module.set_storage_operator_metadata(RawOrigin::Signed(WORKER_ACCOUNT), 0, vec![1, 2, 3]);
    module.accept_pending_data_objects(
        RawOrigin::Signed(WORKER_ACCOUNT),
        WORKER,
        AcceptPendingDataObjectsParams::default(),
    );
    assert_eq!(module.storage_bucket_by_id(0), before);
    assert_eq!(module.storage_buckets_number(), 1);
}

#[test]
fn bag_manager_stores_and_finds_data_objects() {
    let mut module = new_module(5);
    let bag = BagId::default();
    assert_eq!(BagManager::get_data_objects_number(&module, &bag), 0);
    assert_eq!(
        BagManager::ensure_data_object_existence(&module, &bag, &1),
        Err(Error::DataObjectDoesntExist)
    );
    BagManager::insert_data_object(&mut module, &bag, 1, &pending(7, 50));
    BagManager::append_data_objects(
        &mut module,
        &bag,
        &vec![(2, pending(7, 60)), (3, pending(8, 70)), (2, pending(9, 61))],
    );
    assert_eq!(BagManager::get_data_objects_number(&module, &bag), 3);
    assert_eq!(BagManager::ensure_data_object_existence(&module, &bag, &1), Ok(pending(7, 50)));
    // The later of two objects under one id stays.
    assert_eq!(BagManager::ensure_data_object_existence(&module, &bag, &2), Ok(pending(9, 61)));

    BagManager::accept_data_objects(&mut module, &bag, &3);
    assert_eq!(
        BagManager::ensure_data_object_existence(&module, &bag, &3),
        Ok(DataObject { status: DataObjectStatus::AcceptedByLiaison, deletion_prize: 70 })
    );
    // Accepting an object that is not there does nothing.
    BagManager::accept_data_objects(&mut module, &bag, &4);
    assert_eq!(BagManager::get_data_objects_number(&module, &bag), 3);

    BagManager::delete_data_object(&mut module, &bag, &1);
    assert_eq!(
        BagManager::ensure_data_object_existence(&module, &bag, &1),
        Err(Error::DataObjectDoesntExist)
    );
    assert_eq!(BagManager::get_data_objects_number(&module, &bag), 2);
}

#[test]
fn bag_manager_moves_objects_out_of_the_bag() {
    let mut module = new_module(5);
    let bag = BagId::default();
    BagManager::append_data_objects(
        &mut module,
        &bag,
        &vec![(1, pending(7, 50)), (2, pending(7, 60)), (3, pending(8, 70))],
    );
    BagManager::move_data_objects(&mut module, &bag, &bag, &vec![1, 3, 9]);
    assert_eq!(BagManager::get_data_objects_number(&module, &bag), 1);
    assert_eq!(BagManager::ensure_data_object_existence(&module, &bag, &2), Ok(pending(7, 60)));
}

#[test]
fn bag_manager_sets_the_storage_buckets() {
    let mut module = new_module(5);
    let bag = BagId::default();
    assert_eq!(BagManager::get_storage_bucket_ids(&module, &bag), BTreeSet::new());
    BagManager::set_storage_buckets(&mut module, &bag, BTreeSet::from([4u64, 5]));
    assert_eq!(BagManager::get_storage_bucket_ids(&module, &bag), BTreeSet::from([4u64, 5]));
    BagManager::set_storage_buckets(&mut module, &bag, BTreeSet::from([6u64]));
    assert_eq!(BagManager::get_storage_bucket_ids(&module, &bag), BTreeSet::from([6u64]));
}

#[test]
fn bag_manager_queries_and_mutates_the_bag_as_a_whole() {
    let mut module = new_module(5);
    let bag = BagId::default();
    BagManager::append_data_objects(&mut module, &bag, &vec![(1, pending(7, 50)), (2, pending(7, 60))]);
    let prizes = BagManager::query(&module, &bag, |bag| {
        bag.objects.values().map(|object| object.deletion_prize).sum::<u64>()
    });
    assert_eq!(prizes, 110);
    BagManager::mutate(&mut module, &bag, |mut bag| {
        bag.objects.remove(&1);
        bag.stored_by.insert(9);
        bag
    });
    assert_eq!(BagManager::get_data_objects_number(&module, &bag), 1);
    assert_eq!(BagManager::get_storage_bucket_ids(&module, &bag), BTreeSet::from([9u64]));
    assert_eq!(BagManager::query(&module, &bag, |bag| bag.objects.contains_key(&2)), true);
}
