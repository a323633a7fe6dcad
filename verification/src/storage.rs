//! The storage engine: storage buckets, their operators, and the council's bag of data
//! objects.

pub mod bag_manager;

use crate::authorization::{signed_by, Registry};
use crate::common::{ensure_signed, RawOrigin};
use std::collections::{BTreeMap, BTreeSet, HashMap};
use vstd::prelude::*;

verus! {

broadcast use {
    vstd::std_specs::hash::group_hash_axioms,
    vstd::std_specs::btree::group_btree_axioms,
    vstd::laws_cmp::group_laws_cmp,
};

/// What is known of a data object that its liaison has not accepted.
#[derive(Default, Clone, Copy, PartialEq, Eq, Structural, Debug)]
pub struct PendingDataObjectStatus {
    pub liaison: u64,
}

/// Whether the liaison has accepted a data object.
#[derive(Clone, Copy, PartialEq, Eq, Structural, Debug)]
pub enum DataObjectStatus {
    Pending(PendingDataObjectStatus),
    AcceptedByLiaison,
}

impl Default for DataObjectStatus {
    fn default() -> (status: DataObjectStatus)
        ensures
            status == DataObjectStatus::Pending(PendingDataObjectStatus { liaison: 0 }),
    {
        Self::Pending(PendingDataObjectStatus { liaison: 0 })
    }
}

/// A data object in a bag.
#[derive(Default, Clone, Copy, PartialEq, Eq, Structural, Debug)]
pub struct DataObject {
    pub status: DataObjectStatus,
    pub deletion_prize: u64,
}

/// A bag that exists from the start: its data objects and the storage buckets that hold it.
#[derive(Default, Clone, PartialEq, Eq, Debug)]
pub struct StaticBag {
    pub objects: BTreeMap<u64, DataObject>,
    pub stored_by: BTreeSet<u64>,
}

/// What a data object is created from.
#[derive(Clone, PartialEq, Eq, Debug)]
pub struct DataObjectCreationParameters {
    pub size: u64,
    pub ipfs_content_id: Vec<u8>,
}

/// Identifier for a bag.
#[derive(Clone, Copy, PartialEq, Eq, Debug, PartialOrd, Ord)]
pub enum BagId {
    StaticBag(StaticBagId),
}

impl Default for BagId {
    fn default() -> (bag_id: BagId)
        ensures
            bag_id == BagId::StaticBag(StaticBagId::Council),
    {
        Self::StaticBag(StaticBagId::Council)
    }
}

/// Identifier for a static bag.
#[derive(Clone, Copy, PartialEq, Eq, Debug, PartialOrd, Ord)]
pub enum StaticBagId {
    Council,
}

impl Default for StaticBagId {
    fn default() -> (bag_id: StaticBagId)
        ensures
            bag_id == StaticBagId::Council,
    {
        Self::Council
    }
}

/// What an upload is asked with.
#[derive(Default, Clone, PartialEq, Eq, Debug)]
pub struct UploadParametersObject {
    /// Public key used authentication in upload to liaison.
    pub authentication_key: Vec<u8>,
    pub bag: BagId,
    pub object_creation: Vec<DataObjectCreationParameters>,
    pub deletion_prize_source_account: u64,
}

/// Defines storage bucket parameters.
#[derive(Default, Clone, Copy, PartialEq, Eq, Structural, Debug)]
pub struct Voucher {
    /// Total size limit.
    pub size_limit: u64,
    /// Object number limit.
    pub objects_limit: u64,
    /// Current size.
    pub size_used: u64,
    /// Current object number.
    pub objects_used: u64,
}

/// Defines the storage bucket connection to the storage operator (storage WG worker).
#[derive(Clone, Copy, PartialEq, Eq, Structural, Debug)]
pub enum StorageBucketOperatorStatus {
    /// No connection.
    Missing,
    /// Storage operator was invited.
    InvitedStorageWorker(u64),
    /// Storage operator accepted the invitation.
    StorageWorker(u64),
}

impl Default for StorageBucketOperatorStatus {
    fn default() -> (status: StorageBucketOperatorStatus)
        ensures
            status == StorageBucketOperatorStatus::Missing,
    {
        Self::Missing
    }
}

/// A commitment to hold some set of bags for long term storage. A bucket may have a bucket
/// operator, which is a single worker in the storage working group.
#[derive(Default, Clone, Copy, PartialEq, Eq, Structural, Debug)]
pub struct StorageBucket {
    /// Current storage operator status.
    pub operator_status: StorageBucketOperatorStatus,
    /// Defines whether the bucket accepts new bags.
    pub accepting_new_bags: bool,
    /// Number of pending (not accepted) data objects.
    pub number_of_pending_data_objects: u32,
    /// Defines limits for a bucket.
    pub voucher: Voucher,
}

/// A data object with the bag it is in.
#[derive(Default, Clone, Copy, PartialEq, Eq, Debug, PartialOrd, Ord)]
pub struct BaggedDataObject {
    pub bag_id: BagId,
    pub data_object_id: u64,
}

/// Data wrapper structure. Helps passing the parameters to the
/// `update_storage_buckets_for_static_bags` call.
#[derive(Default, Clone, PartialEq, Eq, Debug)]
pub struct UpdateStorageBucketForStaticBagsParams {
    /// Defines new relationship between static bags and storage buckets.
    pub bags: BTreeMap<StaticBagId, BTreeSet<u64>>,
}

/// The data objects that a storage operator accepts.
#[derive(Default, Clone, PartialEq, Eq, Debug)]
pub struct AcceptPendingDataObjectsParams {
    pub bagged_data_objects: BTreeSet<BaggedDataObject>,
}

/// Why a call was rejected.
#[derive(Clone, Copy, PartialEq, Eq, Structural, Debug)]
pub enum Error {
    /// The origin is not the one that the call asks for.
    BadOrigin,
    /// Max storage number limit exceeded.
    MaxStorageNumberLimitExceeded,
    /// Empty "data object creation" collection.
    NoObjectsOnUpload,
    /// The requested storage bucket doesn't exist.
    StorageBucketDoesntExist,
    /// Cannot accept an invitation: there is no storage bucket invitation.
    NoStorageBucketInvitation,
    /// Cannot accept an invitation: storage provider was already set.
    StorageProviderAlreadySet,
    /// Cannot accept an invitation: another storage provider was invited.
    DifferentStorageProviderInvited,
    /// The parameter structure is empty: UpdateStorageBucketForStaticBagsParams.
    UpdateStorageBucketForStaticBagsParamsIsEmpty,
    /// The bag holds no data object of this id.
    DataObjectDoesntExist,
}

/// What a successful call reports.
#[derive(Clone, PartialEq, Eq, Debug)]
pub enum Event {
    /// Emits on creating the storage bucket: storage bucket ID, invited worker, flag
    /// "accepting_new_data_objects", voucher struct.
    StorageBucketCreated(u64, Option<u64>, bool, Voucher),
    /// Emits on accepting the storage bucket invitation: storage bucket ID, invited worker ID.
    StorageBucketInvitationAccepted(u64, u64),
    /// Emits on updating storage buckets for static bags.
    StorageBucketsUpdatedForStaticBags(UpdateStorageBucketForStaticBagsParams),
}

/// Everything the storage engine keeps between calls.
pub struct State {
    /// Defines max allowed storage bucket number.
    pub max_storage_bucket_number: u64,
    /// The data objects of the council bag.
    pub council_bag_objects: Map<u64, DataObject>,
    /// The storage buckets that hold the council bag.
    pub council_bag_stored_by: Set<u64>,
    /// Storage bucket id counter. Starts at zero.
    pub next_storage_bucket_id: u64,
    /// Total number of the storage buckets in the system.
    pub storage_buckets_number: u64,
    /// Storage buckets.
    pub storage_bucket_by_id: Map<u64, StorageBucket>,
    /// The role account of the lead of the storage working group, where it has a lead.
    pub lead: Option<u64>,
    /// The role account of each worker of the storage working group.
    pub workers: Map<u64, u64>,
}

impl State {
    /// Every bucket that was created is counted, the next id is the count, and the count is
    /// within the limit.
    pub open spec fn inv(self) -> bool {
        &&& self.next_storage_bucket_id == self.storage_buckets_number
        &&& self.storage_buckets_number <= self.max_storage_bucket_number
    }

    /// Whether the caller is the lead of the storage working group.
    pub open spec fn ensure_working_group_leader_origin(self, origin: RawOrigin) -> bool {
        match origin {
            RawOrigin::Signed(account_id) => self.lead == Some(account_id),
            _ => false,
        }
    }

    /// Whether the caller is this worker of the storage working group.
    pub open spec fn ensure_worker_origin(self, origin: RawOrigin, worker_id: u64) -> bool {
        signed_by(self.workers, origin, worker_id) is Some
    }

    /// What a call of `create_storage_bucket` returns.
    pub open spec fn create_storage_bucket_result(
        self,
        origin: RawOrigin,
        invite_worker: Option<u64>,
        accepting_new_data_objects: bool,
        voucher: Voucher,
    ) -> Result<Event, Error> {
        if !self.ensure_working_group_leader_origin(origin) {
            Err(Error::BadOrigin)
        } else if self.storage_buckets_number >= self.max_storage_bucket_number {
            Err(Error::MaxStorageNumberLimitExceeded)
        } else {
            Ok(
                Event::StorageBucketCreated(
                    self.next_storage_bucket_id,
                    invite_worker,
                    accepting_new_data_objects,
                    voucher,
                ),
            )
        }
    }

    /// The state after the lead created a storage bucket under the next id, with the worker
    /// invited to operate it where one is given. A rejected call changes nothing.
    pub open spec fn create_storage_bucket(
        self,
        origin: RawOrigin,
        invite_worker: Option<u64>,
        accepting_new_data_objects: bool,
        voucher: Voucher,
    ) -> State {
        if self.create_storage_bucket_result(
            origin,
            invite_worker,
            accepting_new_data_objects,
            voucher,
        ) is Ok {
            State {
                storage_buckets_number: (self.storage_buckets_number + 1) as u64,
                next_storage_bucket_id: (self.next_storage_bucket_id + 1) as u64,
                storage_bucket_by_id: self.storage_bucket_by_id.insert(
                    self.next_storage_bucket_id,
                    StorageBucket {
                        operator_status: match invite_worker {
                            Some(worker_id) => StorageBucketOperatorStatus::InvitedStorageWorker(
                                worker_id,
                            ),
                            None => StorageBucketOperatorStatus::Missing,
                        },
                        accepting_new_bags: accepting_new_data_objects,
                        number_of_pending_data_objects: 0,
                        voucher,
                    },
                ),
                ..self
            }
        } else {
            self
        }
    }

    /// Whether the bucket has an invitation for this worker that is not accepted yet, and why
    /// not where it has not.
    pub open spec fn ensure_bucket_invitation_status(
        bucket: StorageBucket,
        worker_id: u64,
    ) -> Result<(), Error> {
        match bucket.operator_status {
            StorageBucketOperatorStatus::Missing => Err(Error::NoStorageBucketInvitation),
            StorageBucketOperatorStatus::StorageWorker(_) => Err(Error::StorageProviderAlreadySet),
            StorageBucketOperatorStatus::InvitedStorageWorker(invited_worker_id) => if worker_id
                == invited_worker_id {
                Ok(())
            } else {
                Err(Error::DifferentStorageProviderInvited)
            },
        }
    }

    /// What a call of `accept_storage_bucket_invitation` returns.
    pub open spec fn accept_storage_bucket_invitation_result(
        self,
        origin: RawOrigin,
        worker_id: u64,
        storage_bucket_id: u64,
    ) -> Result<Event, Error> {
        if !self.ensure_worker_origin(origin, worker_id) {
            Err(Error::BadOrigin)
        } else if !self.storage_bucket_by_id.contains_key(storage_bucket_id) {
            Err(Error::StorageBucketDoesntExist)
        } else {
            match Self::ensure_bucket_invitation_status(
                self.storage_bucket_by_id[storage_bucket_id],
                worker_id,
            ) {
                Err(e) => Err(e),
                Ok(()) => Ok(Event::StorageBucketInvitationAccepted(storage_bucket_id, worker_id)),
            }
        }
    }

    /// The state after the invited worker accepted to operate the storage bucket. A rejected call
    /// changes nothing.
    pub open spec fn accept_storage_bucket_invitation(
        self,
        origin: RawOrigin,
        worker_id: u64,
        storage_bucket_id: u64,
    ) -> State {
        if self.accept_storage_bucket_invitation_result(origin, worker_id, storage_bucket_id)
            is Ok {
            State {
                storage_bucket_by_id: self.storage_bucket_by_id.insert(
                    storage_bucket_id,
                    StorageBucket {
                        operator_status: StorageBucketOperatorStatus::StorageWorker(worker_id),
                        ..self.storage_bucket_by_id[storage_bucket_id]
                    },
                ),
                ..self
            }
        } else {
            self
        }
    }
}

/// The storage engine: the council bag, the storage buckets, and the working group that the
/// callers are checked against.
pub struct Module {
    max_storage_bucket_number: u64,
    council_bag: StaticBag,
    next_storage_bucket_id: u64,
    storage_buckets_number: u64,
    storage_bucket_by_id: HashMap<u64, StorageBucket>,
    lead: Option<u64>,
    workers: Registry,
}

impl View for Module {
    type V = State;

    closed spec fn view(&self) -> State {
        State {
            max_storage_bucket_number: self.max_storage_bucket_number,
            council_bag_objects: self.council_bag.objects@,
            council_bag_stored_by: self.council_bag.stored_by@,
            next_storage_bucket_id: self.next_storage_bucket_id,
            storage_buckets_number: self.storage_buckets_number,
            storage_bucket_by_id: self.storage_bucket_by_id@,
            lead: self.lead,
            workers: self.workers@,
        }
    }
}

impl Module {
    /// The engine's own invariant.
    pub closed spec fn wf(&self) -> bool {
        self@.inv()
    }

    /// The council bag.
    pub closed spec fn council_bag(&self) -> StaticBag {
        self.council_bag
    }

    /// What `wf` gives to a caller: there are never more storage buckets than the limit allows,
    /// and the id that the next bucket takes was never given out.
    pub proof fn lemma_wf_implies_inv(&self)
        requires
            self.wf(),
        ensures
            self@.inv(),
    {
    }

    /// An engine with an empty council bag, no bucket and no worker.
    pub fn new(max_storage_bucket_number: u64) -> (module: Module)
        ensures
            module.wf(),
            module@ == (State {
                max_storage_bucket_number,
                council_bag_objects: Map::<u64, DataObject>::empty(),
                council_bag_stored_by: Set::<u64>::empty(),
                next_storage_bucket_id: 0,
                storage_buckets_number: 0,
                storage_bucket_by_id: Map::<u64, StorageBucket>::empty(),
                lead: None,
                workers: Map::<u64, u64>::empty(),
            }),
    {
        Module {
            max_storage_bucket_number,
            council_bag: StaticBag { objects: BTreeMap::new(), stored_by: BTreeSet::new() },
            next_storage_bucket_id: 0,
            storage_buckets_number: 0,
            storage_bucket_by_id: HashMap::new(),
            lead: None,
            workers: Registry::new(),
        }
    }

    /// Makes `account_id` the role account of the lead of the storage working group.
    pub fn set_lead(&mut self, account_id: u64)
        requires
            old(self).wf(),
        ensures
            final(self).wf(),
            final(self)@ == (State { lead: Some(account_id), ..old(self)@ }),
    {
        self.lead = Some(account_id);
    }

    /// Makes `account_id` the role account of a worker of the storage working group.
    pub fn set_worker(&mut self, worker_id: u64, account_id: u64)
        requires
            old(self).wf(),
        ensures
            final(self).wf(),
            final(self)@ == (State {
                workers: old(self)@.workers.insert(worker_id, account_id),
                ..old(self)@
            }),
    {
        self.workers.bind(worker_id, account_id);
    }

    /// Storage bucket id counter.
    pub fn next_storage_bucket_id(&self) -> (id: u64)
        ensures
            id == self@.next_storage_bucket_id,
    {
        self.next_storage_bucket_id
    }

    /// Total number of the storage buckets in the system.
    pub fn storage_buckets_number(&self) -> (number: u64)
        ensures
            number == self@.storage_buckets_number,
    {
        self.storage_buckets_number
    }

    /// The storage bucket with this id, if there is one.
    pub fn storage_bucket_by_id(&self, storage_bucket_id: u64) -> (bucket: Option<StorageBucket>)
        ensures
            bucket == if self@.storage_bucket_by_id.contains_key(storage_bucket_id) {
                Some(self@.storage_bucket_by_id[storage_bucket_id])
            } else {
                None
            },
    {
        match self.storage_bucket_by_id.get(&storage_bucket_id) {
            Some(bucket) => Some(*bucket),
            None => None,
        }
    }

    /// Demand the working group leader authorization.
    pub fn ensure_working_group_leader_origin(&self, origin: RawOrigin) -> (res: Result<(), Error>)
        ensures
            res.is_ok() <==> self@.ensure_working_group_leader_origin(origin),
            res.is_err() ==> res == Err::<(), Error>(Error::BadOrigin),
    {
        match ensure_signed(origin) {
            Err(_) => Err(Error::BadOrigin),
            Ok(account_id) => match self.lead {
                Some(lead) => if lead == account_id {
                    Ok(())
                } else {
                    Err(Error::BadOrigin)
                },
                None => Err(Error::BadOrigin),
            },
        }
    }

    /// Validate origin for the worker.
    pub fn ensure_worker_origin(
        &self,
        origin: RawOrigin,
        worker_id: u64,
    ) -> (res: Result<(), Error>)
        ensures
            res.is_ok() <==> self@.ensure_worker_origin(origin, worker_id),
            res.is_err() ==> res == Err::<(), Error>(Error::BadOrigin),
    {
        match self.workers.signed_by(origin, worker_id) {
            Some(_) => Ok(()),
            None => Err(Error::BadOrigin),
        }
    }

    /// Validates upload parameters.
    pub fn validate_upload_parameter(params: &UploadParametersObject) -> (res: Result<(), Error>)
        ensures
            res == if params.object_creation@.len() == 0 {
                Err::<(), Error>(Error::NoObjectsOnUpload)
            } else {
                Ok::<(), Error>(())
            },
    {
        if params.object_creation.len() == 0 {
            return Err(Error::NoObjectsOnUpload);
        }
        Ok(())
    }

    /// Ensures the existence of the storage bucket. Returns the StorageBucket object or error.
    pub fn ensure_storage_bucket_exists(
        &self,
        storage_bucket_id: u64,
    ) -> (res: Result<StorageBucket, Error>)
        ensures
            res == if self@.storage_bucket_by_id.contains_key(storage_bucket_id) {
                Ok::<StorageBucket, Error>(self@.storage_bucket_by_id[storage_bucket_id])
            } else {
                Err::<StorageBucket, Error>(Error::StorageBucketDoesntExist)
            },
    {
        match self.storage_bucket_by_id(storage_bucket_id) {
            Some(bucket) => Ok(bucket),
            None => Err(Error::StorageBucketDoesntExist),
        }
    }

    /// Ensures the correct invitation for the storage bucket and storage provider.
    pub fn ensure_bucket_invitation_status(
        bucket: &StorageBucket,
        worker_id: u64,
    ) -> (res: Result<(), Error>)
        ensures
            res == State::ensure_bucket_invitation_status(*bucket, worker_id),
    {
        match bucket.operator_status {
            StorageBucketOperatorStatus::Missing => Err(Error::NoStorageBucketInvitation),
            StorageBucketOperatorStatus::StorageWorker(_) => Err(Error::StorageProviderAlreadySet),
            StorageBucketOperatorStatus::InvitedStorageWorker(invited_worker_id) => {
                if worker_id != invited_worker_id {
                    return Err(Error::DifferentStorageProviderInvited);
                }
                Ok(())
            },
        }
    }

    /// Upload new objects. Only the parameters are checked; nothing is stored.
    pub fn upload(
        &self,
        _origin: RawOrigin,
        params: UploadParametersObject,
    ) -> (res: Result<(), Error>)
        ensures
            res == if params.object_creation@.len() == 0 {
                Err::<(), Error>(Error::NoObjectsOnUpload)
            } else {
                Ok::<(), Error>(())
            },
    {
        Self::validate_upload_parameter(&params)
    }

    /// Announces a new relationship between static bags and storage buckets. Only the leader
    /// may, and the relationship must not be empty; nothing is stored.
    pub fn update_storage_buckets_for_static_bags(
        &self,
        origin: RawOrigin,
        params: UpdateStorageBucketForStaticBagsParams,
    ) -> (res: Result<Event, Error>)
        ensures
            res == if !self@.ensure_working_group_leader_origin(origin) {
                Err::<Event, Error>(Error::BadOrigin)
            } else if params.bags@.is_empty() {
                Err::<Event, Error>(Error::UpdateStorageBucketForStaticBagsParamsIsEmpty)
            } else {
                Ok::<Event, Error>(Event::StorageBucketsUpdatedForStaticBags(params))
            },
    {
        match self.ensure_working_group_leader_origin(origin) {
            Ok(()) => {},
            Err(e) => {
                return Err(e);
            },
        }
        if params.bags.is_empty() {
            return Err(Error::UpdateStorageBucketForStaticBagsParamsIsEmpty);
        }
        //
        // == MUTATION SAFE ==
        //

        Ok(Event::StorageBucketsUpdatedForStaticBags(params))
    }

    /// Create storage bucket.
    pub fn create_storage_bucket(
        &mut self,
        origin: RawOrigin,
        invite_worker: Option<u64>,
        accepting_new_data_objects: bool,
        voucher: Voucher,
    ) -> (res: Result<Event, Error>)
        requires
            old(self).wf(),
        ensures
            final(self).wf(),
            res == old(self)@.create_storage_bucket_result(
                origin,
                invite_worker,
                accepting_new_data_objects,
                voucher,
            ),
            final(self)@ == old(self)@.create_storage_bucket(
                origin,
                invite_worker,
                accepting_new_data_objects,
                voucher,
            ),
    {
        match self.ensure_working_group_leader_origin(origin) {
            Ok(()) => {},
            Err(e) => {
                return Err(e);
            },
        }
        let buckets_number = self.storage_buckets_number;
        if buckets_number >= self.max_storage_bucket_number {
            return Err(Error::MaxStorageNumberLimitExceeded);
        }
        let operator_status = match invite_worker {
            Some(worker_id) => StorageBucketOperatorStatus::InvitedStorageWorker(worker_id),
            None => StorageBucketOperatorStatus::Missing,
        };

        let storage_bucket = StorageBucket {
            operator_status,
            accepting_new_bags: accepting_new_data_objects,
            number_of_pending_data_objects: 0,
            voucher,
        };

        let storage_bucket_id = self.next_storage_bucket_id;

        //
        // == MUTATION SAFE ==
        //

        self.storage_buckets_number = buckets_number + 1;

        self.next_storage_bucket_id = storage_bucket_id + 1;

        self.storage_bucket_by_id.insert(storage_bucket_id, storage_bucket);

        Ok(
            Event::StorageBucketCreated(
                storage_bucket_id,
                invite_worker,
                accepting_new_data_objects,
                voucher,
            ),
        )
    }

    /// Takes the metadata of a storage operator; nothing is stored.
    pub fn set_storage_operator_metadata(
        &self,
        _origin: RawOrigin,
        _storage_bucket_id: u64,
        _metadata: Vec<u8>,
    ) {
    }

    /// Takes the data objects that a storage operator accepts; nothing is stored.
    pub fn accept_pending_data_objects(
        &self,
        _origin: RawOrigin,
        _worker_id: u64,
        _objects: AcceptPendingDataObjectsParams,
    ) {
    }

    /// Accept the storage bucket invitation. An invitation must match the worker_id parameter.
    pub fn accept_storage_bucket_invitation(
        &mut self,
        origin: RawOrigin,
        worker_id: u64,
        storage_bucket_id: u64,
    ) -> (res: Result<Event, Error>)
        requires
            old(self).wf(),
        ensures
            final(self).wf(),
            res == old(self)@.accept_storage_bucket_invitation_result(
                origin,
                worker_id,
                storage_bucket_id,
            ),
            final(self)@ == old(self)@.accept_storage_bucket_invitation(
                origin,
                worker_id,
                storage_bucket_id,
            ),
    {
        match self.ensure_worker_origin(origin, worker_id) {
            Ok(()) => {},
            Err(e) => {
                return Err(e);
            },
        }
        let bucket = match self.ensure_storage_bucket_exists(storage_bucket_id) {
            Ok(bucket) => bucket,
            Err(e) => {
                return Err(e);
            },
        };
        match Self::ensure_bucket_invitation_status(&bucket, worker_id) {
            Ok(()) => {},
            Err(e) => {
                return Err(e);
            },
        }
        //
        // == MUTATION SAFE ==
        //

        self.storage_bucket_by_id.insert(
            storage_bucket_id,
            StorageBucket {
                operator_status: StorageBucketOperatorStatus::StorageWorker(worker_id),
                ..bucket
            },
        );

        Ok(Event::StorageBucketInvitationAccepted(storage_bucket_id, worker_id))
    }
}

} // verus!
