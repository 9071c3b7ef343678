//! The registry of entities and their components.
//!
//! An entity is a handle into a [`GIVec`] of records. A record holds, for
//! each component type, at most one handle into the store of that type. To
//! read a component is to follow both handles, and each is checked for
//! liveness on the way.

pub mod entity;
pub mod stores;

use vstd::multiset::Multiset;
use vstd::prelude::*;
use self::entity::{dropped, record_handles, recorded, Entity};
use self::stores::{freed, issued, store_slots, ComponentStores};
use crate::generational_index::index::{allocates, live_in, released, Entry, Index};
use crate::generational_index::GIVec;

verus! {

/// Marks a type as a component. Each component type gets a store of its own
/// the first time a value of it is added to an entity.
pub trait Component {}

/// Names an entity, or a component in the store of its type.
pub type Handle = Index;

/// What following `held` into `store` finds: the value that `held` names
/// there, where there is a handle, a store, and the handle is live in it.
pub open spec fn resolved<T>(held: Option<Index>, store: Option<&GIVec<T>>) -> Option<&T> {
    match (held, store) {
        (Some(h), Some(s)) => if s@.contains_key(h) {
            Some(&s@[h])
        } else {
            None
        },
        _ => None,
    }
}

/// Follows `held`, the handle that an entity's record holds for a component
/// type, into `store`, the store of that type. Either may be missing, and
/// the handle may have gone stale; there is no component then.
pub fn resolve<'a, T>(held: Option<Index>, store: Option<&'a GIVec<T>>) -> (r: Option<&'a T>)
    ensures
        r == resolved(held, store),
{
    match (held, store) {
        (Some(handle), Some(store)) => store.get(&handle),
        _ => None,
    }
}

/// Whether an entity takes a component of a type, given what was `found`
/// of it: nothing where the entity is not live, else whether its record has
/// a component of the type already. It takes one only where it is live and
/// has none.
pub fn admits(found: Option<bool>) -> (b: bool)
    ensures
        b == (found == Some(false)),
{
    match found {
        Some(present) => !present,
        None => false,
    }
}

/// Some handle among `handles` is live in some store among `slots`.
pub open spec fn reaches(handles: Multiset<Index>, slots: Multiset<Seq<Entry>>) -> bool {
    exists|h: Index, a: Seq<Entry>| handles.contains(h) && slots.contains(a) && #[trigger] live_in(a, h)
}

/// A component was added: one store has issued a handle, and the record has
/// taken that handle in, in addition or in the place of one that left.
pub open spec fn attached(
    record_before: Multiset<Index>,
    record_after: Multiset<Index>,
    stores_before: Multiset<Seq<Entry>>,
    stores_after: Multiset<Seq<Entry>>,
) -> bool {
    exists|h: Index, replaced: Option<Index>|
        issued(stores_before, stores_after, h) && #[trigger] recorded(
            record_before,
            record_after,
            h,
            replaced,
        )
}

/// A component was removed: one store has released a handle that the record
/// held, and the record has let go of one handle or of none. That the handle
/// it let go of is the one released is not told.
pub open spec fn detached(
    record_before: Multiset<Index>,
    record_after: Multiset<Index>,
    stores_before: Multiset<Seq<Entry>>,
    stores_after: Multiset<Seq<Entry>>,
) -> bool {
    &&& exists|h: Index|
        record_before.contains(h) && #[trigger] freed(stores_before, stores_after, h, true)
    &&& exists|taken: Option<Index>| #[trigger] dropped(record_before, record_after, taken)
}

/// The registry: the entities' records and the components' stores.
pub struct Ecs {
    components: ComponentStores,
    entities: GIVec<Entity>,
}

impl Ecs {
    /// The slots of the entities, live and dead.
    pub closed spec fn entity_slots(self) -> Seq<Entry> {
        self.entities.slots()
    }

    /// The record of each live entity.
    pub closed spec fn records(self) -> Map<Index, Entity> {
        self.entities@
    }

    /// The stores of the components.
    pub closed spec fn stores(self) -> ComponentStores {
        self.components
    }

    /// The entities that have a record are the live ones.
    pub proof fn lemma_records_of_live(self, h: Index)
        ensures
            self.records().contains_key(h) <==> live_in(self.entity_slots(), h),
    {
        self.entities.lemma_holds_live(h);
    }

    /// A registry without entities and without stores.
    pub fn new() -> (ecs: Ecs)
        ensures
            ecs.entity_slots() == Seq::<Entry>::empty(),
            ecs.records() == Map::<Index, Entity>::empty(),
            store_slots(ecs.stores()) == Multiset::<Seq<Entry>>::empty(),
    {
        Ecs { components: ComponentStores::new(), entities: GIVec::new() }
    }

    /// Creates an entity without components.
    pub fn create_entity(&mut self) -> (h: Handle)
        ensures
            allocates(old(self).entity_slots(), final(self).entity_slots(), h),
            !old(self).records().contains_key(h),
            final(self).records().contains_key(h),
            final(self).records().remove(h) == old(self).records(),
            record_handles(final(self).records()[h]) == Multiset::<Index>::empty(),
            final(self).stores() == old(self).stores(),
    {
        let h = self.entities.insert(Entity::new());
        h
    }

    /// Deletes `handle`'s entity if it is live, and says whether it was.
    ///
    /// The components of the entity stay in their stores: the record that
    /// named them is gone with the entity, and with it the only way to them.
    /// Remove each with [`Ecs::remove_comp`] before deleting the entity.
    pub fn delete_entity(&mut self, handle: Handle) -> (b: bool)
        ensures
            b == old(self).records().contains_key(handle),
            final(self).entity_slots() == released(old(self).entity_slots(), handle),
            final(self).records() == old(self).records().remove(handle),
            final(self).stores() == old(self).stores(),
    {
        self.entities.remove(handle)
    }

    /// The component of type `T` of `index`'s entity.
    ///
    /// There is none if the entity is not live, if its record has no handle
    /// for `T`, or if that handle is not live in the store of `T`. So there
    /// is one only where the record holds a handle that is live in a store.
    pub fn get_comp<T: Component + 'static>(&self, index: &Handle) -> (r: Option<&T>)
        ensures
            r is Some ==> self.records().contains_key(*index) && reaches(
                record_handles(self.records()[*index]),
                store_slots(self.stores()),
            ),
    {
        let held = match self.entities.get(index) {
            Some(record) => record.get::<T>(),
            None => None,
        };
        let store = self.components.store::<T>();
        proof {
            if let (Some(h), Some(s)) = (held, store) {
                s.lemma_holds_live(h);
            }
        }
        resolve(held, store)
    }

    /// Gives `entity`'s entity the component `comp`, and says whether it did.
    ///
    /// It does not if the entity is not live or has a component of type `T`
    /// already; the registry is then left as it was. Otherwise `comp` goes
    /// into the store of `T` and its handle into the entity's record. An
    /// entity that is live and has no component at all takes any.
    pub fn add_comp<T: Component + 'static>(&mut self, entity: &Handle, comp: T) -> (b: bool)
        ensures
            old(self).records().contains_key(*entity) && record_handles(
                old(self).records()[*entity],
            ).len() == 0 ==> b,
            b ==> old(self).records().contains_key(*entity) && attached(
                record_handles(old(self).records()[*entity]),
                record_handles(final(self).records()[*entity]),
                store_slots(old(self).stores()),
                store_slots(final(self).stores()),
            ),
            !b ==> final(self).records() == old(self).records() && final(self).stores() == old(
                self,
            ).stores(),
            final(self).entity_slots() == old(self).entity_slots(),
            final(self).records().dom() == old(self).records().dom(),
            final(self).records().remove(*entity) == old(self).records().remove(*entity),
    {
        let found = match self.entities.get(entity) {
            Some(record) => Some(record.contains::<T>()),
            None => None,
        };
        if !admits(found) {
            return false;
        }
        let handle = self.components.create_comp::<T>(comp);
        let replaced = match self.entities.get_mut(entity) {
            Some(record) => record.put::<T>(handle),
            None => None,
        };
        assert(recorded(
            record_handles(old(self).records()[*entity]),
            record_handles(self.records()[*entity]),
            handle,
            replaced,
        ));
        true
    }

    /// Takes the component of type `T` from `entity`'s entity, and says
    /// whether it did.
    ///
    /// It does not if the entity is not live, if its record has no handle
    /// for `T`, or if that handle is not live in the store of `T`; the
    /// registry is then left as it was. Otherwise the store of `T` releases
    /// the handle and the record lets go of it.
    pub fn remove_comp<T: Component + 'static>(&mut self, entity: &Handle) -> (b: bool)
        ensures
            b ==> old(self).records().contains_key(*entity) && detached(
                record_handles(old(self).records()[*entity]),
                record_handles(final(self).records()[*entity]),
                store_slots(old(self).stores()),
                store_slots(final(self).stores()),
            ),
            !b ==> final(self).records() == old(self).records() && final(self).stores() == old(
                self,
            ).stores(),
            final(self).entity_slots() == old(self).entity_slots(),
            final(self).records().dom() == old(self).records().dom(),
            final(self).records().remove(*entity) == old(self).records().remove(*entity),
    {
        let held = match self.entities.get(entity) {
            Some(record) => record.get::<T>(),
            None => None,
        };
        let handle = match held {
            Some(handle) => handle,
            None => {
                return false;
            },
        };
        if !self.components.remove_from_store::<T>(handle) {
            return false;
        }
        let taken = match self.entities.get_mut(entity) {
            Some(record) => record.take::<T>(),
            None => None,
        };
        assert(dropped(
            record_handles(old(self).records()[*entity]),
            record_handles(self.records()[*entity]),
            taken,
        ));
        true
    }
}

} // verus!
