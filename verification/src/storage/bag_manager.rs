//! What is done to a bag, by the bag's id.

use crate::common::count_to_u64;
use crate::storage::{BagId, DataObject, DataObjectStatus, Error, Module, State, StaticBag};
use std::collections::BTreeSet;
use vstd::prelude::*;

verus! {

broadcast use {vstd::std_specs::btree::group_btree_axioms, vstd::laws_cmp::group_laws_cmp};

/// Static bags abstraction: what is done to the data objects and the storage buckets of a
/// bag, by the bag's id.
pub struct BagManager;

impl BagManager {
    /// Accept data objects for a bag.
    pub fn accept_data_objects(module: &mut Module, bag_id: &BagId, data_object_id: &u64)
        requires
            old(module).wf(),
        ensures
            final(module).wf(),
            final(module)@ == (State {
                council_bag_objects: if old(module)@.council_bag_objects.contains_key(
                    *data_object_id,
                ) {
                    old(module)@.council_bag_objects.insert(
                        *data_object_id,
                        DataObject {
                            status: DataObjectStatus::AcceptedByLiaison,
                            ..old(module)@.council_bag_objects[*data_object_id]
                        },
                    )
                } else {
                    old(module)@.council_bag_objects
                },
                ..old(module)@
            }),
    {
        match bag_id {
            BagId::StaticBag(_) => {
                let accepted = match module.council_bag.objects.get(data_object_id) {
                    Some(data_object) => Some(
                        DataObject { status: DataObjectStatus::AcceptedByLiaison, ..*data_object },
                    ),
                    None => None,
                };
                match accepted {
                    Some(data_object) => {
                        module.council_bag.objects.insert(*data_object_id, data_object);
                    },
                    None => {},
                }
            },
        }
    }

    /// Delete data object for a bag.
    pub fn delete_data_object(module: &mut Module, bag_id: &BagId, data_object_id: &u64)
        requires
            old(module).wf(),
        ensures
            final(module).wf(),
            final(module)@ == (State {
                council_bag_objects: old(module)@.council_bag_objects.remove(*data_object_id),
                ..old(module)@
            }),
    {
        match bag_id {
            BagId::StaticBag(_) => {
                module.council_bag.objects.remove(data_object_id);
            },
        }
    }

    /// Insert a single data object to bag.
    pub fn insert_data_object(
        module: &mut Module,
        bag_id: &BagId,
        data_object_id: u64,
        data_object: &DataObject,
    )
        requires
            old(module).wf(),
        ensures
            final(module).wf(),
            final(module)@ == (State {
                council_bag_objects: old(module)@.council_bag_objects.insert(
                    data_object_id,
                    *data_object,
                ),
                ..old(module)@
            }),
    {
        match bag_id {
            BagId::StaticBag(_) => {
                module.council_bag.objects.insert(data_object_id, *data_object);
            },
        }
    }

    /// Sets storage buckets to bag.
    pub fn set_storage_buckets(module: &mut Module, bag_id: &BagId, buckets: BTreeSet<u64>)
        requires
            old(module).wf(),
        ensures
            final(module).wf(),
            final(module)@ == (State { council_bag_stored_by: buckets@, ..old(module)@ }),
    {
        match bag_id {
            BagId::StaticBag(_) => {
                module.council_bag.stored_by = buckets;
            },
        }
    }

    /// Check the data object existence inside a bag.
    pub fn ensure_data_object_existence(
        module: &Module,
        bag_id: &BagId,
        data_object_id: &u64,
    ) -> (res: Result<DataObject, Error>)
        ensures
            res == if module@.council_bag_objects.contains_key(*data_object_id) {
                Ok::<DataObject, Error>(module@.council_bag_objects[*data_object_id])
            } else {
                Err::<DataObject, Error>(Error::DataObjectDoesntExist)
            },
    {
        match bag_id {
            BagId::StaticBag(_) => match module.council_bag.objects.get(data_object_id) {
                Some(data_object) => Ok(*data_object),
                None => Err(Error::DataObjectDoesntExist),
            },
        }
    }

    /// Gets data object number from the bag container.
    pub fn get_data_objects_number(module: &Module, bag_id: &BagId) -> (number: u64)
        ensures
            number == module@.council_bag_objects.len(),
    {
        match bag_id {
            BagId::StaticBag(_) => count_to_u64(module.council_bag.objects.len()),
        }
    }

    /// Gets storage bucket ID set from the bag container.
    pub fn get_storage_bucket_ids(module: &Module, bag_id: &BagId) -> (buckets: BTreeSet<u64>)
        ensures
            buckets@ == module@.council_bag_stored_by,
    {
        match bag_id {
            BagId::StaticBag(_) => module.council_bag.stored_by.clone(),
        }
    }
}

/// The objects of a bag after the listed objects were stored from position `i` on, each
/// under its id; where an id is listed twice the later object stays.
pub open spec fn with_objects(
    objects: Map<u64, DataObject>,
    listed: Seq<(u64, DataObject)>,
    i: int,
) -> Map<u64, DataObject>
    decreases listed.len() - i,
{
    if i < 0 || i >= listed.len() {
        objects
    } else {
        with_objects(objects.insert(listed[i].0, listed[i].1), listed, i + 1)
    }
}

impl BagManager {
    /// Adds several data objects to bag.
    pub fn append_data_objects(
        module: &mut Module,
        bag_id: &BagId,
        data_objects: &Vec<(u64, DataObject)>,
    )
        requires
            old(module).wf(),
        ensures
            final(module).wf(),
            final(module)@ == (State {
                council_bag_objects: with_objects(
                    old(module)@.council_bag_objects,
                    data_objects@,
                    0,
                ),
                ..old(module)@
            }),
    {
        match bag_id {
            BagId::StaticBag(_) => {
                let mut i: usize = 0;
                while i < data_objects.len()
                    invariant
                        module.wf(),
                        i <= data_objects@.len(),
                        module@ == (State {
                            council_bag_objects: module@.council_bag_objects,
                            ..old(module)@
                        }),
                        with_objects(module@.council_bag_objects, data_objects@, i as int)
                            == with_objects(old(module)@.council_bag_objects, data_objects@, 0),
                    decreases data_objects@.len() - i,
                {
                    let (data_object_id, data_object) = data_objects[i];
                    module.council_bag.objects.insert(data_object_id, data_object);
                    i += 1;
                }
            },
        }
    }

    /// Move data objects between bags. With the one bag there is, the objects that are moved
    /// out of it are not stored again: they leave the bag.
    pub fn move_data_objects(
        module: &mut Module,
        src_bag_id: &BagId,
        dest_bag_id: &BagId,
        object_ids: &Vec<u64>,
    )
        requires
            old(module).wf(),
        ensures
            final(module).wf(),
            final(module)@ == (State {
                council_bag_objects: old(module)@.council_bag_objects.remove_keys(
                    object_ids@.to_set(),
                ),
                ..old(module)@
            }),
    {
        match (src_bag_id, dest_bag_id) {
            (BagId::StaticBag(_), BagId::StaticBag(_)) => {
                let mut i: usize = 0;
                proof {
                    assert(old(module)@.council_bag_objects.remove_keys(
                        object_ids@.take(0).to_set(),
                    ) =~= old(module)@.council_bag_objects);
                }
                while i < object_ids.len()
                    invariant
                        module.wf(),
                        i <= object_ids@.len(),
                        module@ == (State {
                            council_bag_objects: old(module)@.council_bag_objects.remove_keys(
                                object_ids@.take(i as int).to_set(),
                            ),
                            ..old(module)@
                        }),
                    decreases object_ids@.len() - i,
                {
                    module.council_bag.objects.remove(&object_ids[i]);
                    proof {
                        let before = object_ids@.take(i as int);
                        let after = object_ids@.take(i + 1);
                        assert(after =~= before.push(object_ids@[i as int]));
                        assert(after.to_set() =~= before.to_set().insert(
                            object_ids@[i as int],
                        )) by {
                            assert forall|x: u64| after.to_set().contains(x)
                                <==> before.to_set().insert(object_ids@[i as int]).contains(x) by {
                                if after.contains(x) {
                                    let k = choose|k: int| 0 <= k < after.len() && after[k] == x;
                                    if k < i {
                                        assert(before[k] == x);
                                    }
                                }
                                if before.contains(x) {
                                    let k = choose|k: int| 0 <= k < before.len() && before[k] == x;
                                    assert(after[k] == x);
                                }
                                if x == object_ids@[i as int] {
                                    assert(after[i as int] == x);
                                }
                            }
                        }
                        assert(old(module)@.council_bag_objects.remove_keys(after.to_set())
                            =~= old(module)@.council_bag_objects.remove_keys(
                            before.to_set(),
                        ).remove(object_ids@[i as int]));
                    }
                    i += 1;
                }
                proof {
                    assert(object_ids@.take(i as int) =~= object_ids@);
                }
            },
        }
    }
}

impl BagManager {
    /// Abstract bag query function: what the query finds in the bag of this id.
    pub fn query<Res, StaticBagQuery: Fn(&StaticBag) -> Res>(
        module: &Module,
        bag_id: &BagId,
        static_bag_query: StaticBagQuery,
    ) -> (res: Res)
        requires
            static_bag_query.requires((&module.council_bag(),)),
        ensures
            static_bag_query.ensures((&module.council_bag(),), res),
    {
        match bag_id {
            BagId::StaticBag(_) => static_bag_query(&module.council_bag),
        }
    }

    /// Abstract bag mutation function: stores in place of the bag of this id what the mutation
    /// makes of it.
    pub fn mutate<StaticBagMutation: FnOnce(StaticBag) -> StaticBag>(
        module: &mut Module,
        bag_id: &BagId,
        static_bag_mutation: StaticBagMutation,
    )
        requires
            old(module).wf(),
            static_bag_mutation.requires((old(module).council_bag(),)),
        ensures
            final(module).wf(),
            static_bag_mutation.ensures((old(module).council_bag(),), final(module).council_bag()),
            final(module)@ == (State {
                council_bag_objects: final(module).council_bag().objects@,
                council_bag_stored_by: final(module).council_bag().stored_by@,
                ..old(module)@
            }),
    {
        match bag_id {
            BagId::StaticBag(_) => {
                let mut bag = StaticBag {
                    objects: std::collections::BTreeMap::new(),
                    stored_by: BTreeSet::new(),
                };
                std::mem::swap(&mut bag, &mut module.council_bag);
                module.council_bag = static_bag_mutation(bag);
            },
        }
    }
}

} // verus!
