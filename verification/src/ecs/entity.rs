//! The record of one entity.

use std::marker::PhantomData;
use typemap::{Key, TypeMap};
use vstd::multiset::Multiset;
use vstd::prelude::*;
use super::Component;
use crate::generational_index::index::Index;

verus! {

/// Keys a record by component type `T`: the value is the handle of the
/// entity's component in the store of `T`.
struct ComponentEntry<T: Component>(PhantomData<T>);

impl<T: Component + 'static> Key for ComponentEntry<T> {
    type Value = Index;
}

/// An entity's record: for each component type, at most one handle into the
/// store of that type.
///
/// The record is a `typemap::TypeMap`, which is opaque to the verifier. What
/// it holds is told by [`record_handles`], without the types.
#[verifier::external_body]
pub struct Entity(TypeMap);

/// The handles that `record` holds, one for each component type that has
/// one. Under which type a handle stands is not told: a specification cannot
/// speak of a type's identity, so that two lookups are known to meet the
/// same entry only by what they hand back.
pub uninterp spec fn record_handles(record: Entity) -> Multiset<Index>;

/// `post` is `pre` after `handle` was recorded and `replaced` handed back:
/// `handle` is added, or stands in the place of the handle that left.
pub open spec fn recorded(
    pre: Multiset<Index>,
    post: Multiset<Index>,
    handle: Index,
    replaced: Option<Index>,
) -> bool {
    match replaced {
        None => post == pre.insert(handle),
        Some(p) => pre.contains(p) && post == pre.remove(p).insert(handle),
    }
}

/// `post` is `pre` after `taken` was handed back: that handle has left, or
/// nothing has.
pub open spec fn dropped(pre: Multiset<Index>, post: Multiset<Index>, taken: Option<Index>) -> bool {
    match taken {
        None => post == pre,
        Some(p) => pre.contains(p) && post == pre.remove(p),
    }
}

impl Entity {
    /// A record without components, made by `TypeMap::new`, which makes an
    /// empty map.
    #[verifier::external_body]
    pub fn new() -> (record: Entity)
        ensures
            record_handles(record) == Multiset::<Index>::empty(),
    {
        Entity(TypeMap::new())
    }

    /// Whether the record has a handle for `T`, as `TypeMap::contains` says.
    /// Claimed: a record that has one is not empty.
    #[verifier::external_body]
    pub(crate) fn contains<T: Component + 'static>(&self) -> (b: bool)
        ensures
            b ==> record_handles(*self).len() > 0,
    {
        self.0.contains::<ComponentEntry<T>>()
    }

    /// The handle recorded for `T`, as `TypeMap::get` finds it. Claimed:
    /// what is found is one of the handles that the record holds.
    #[verifier::external_body]
    pub(crate) fn get<T: Component + 'static>(&self) -> (r: Option<Index>)
        ensures
            r matches Some(h) ==> record_handles(*self).contains(h),
    {
        self.0.get::<ComponentEntry<T>>().copied()
    }

    /// Records `handle` for `T` with `TypeMap::insert`, which hands back the
    /// handle it replaces. Claimed: the record holds `handle` in addition
    /// where nothing comes back, and in the place of what comes back
    /// otherwise.
    #[verifier::external_body]
    pub(crate) fn put<T: Component + 'static>(&mut self, handle: Index) -> (r: Option<Index>)
        ensures
            recorded(record_handles(*old(self)), record_handles(*final(self)), handle, r),
    {
        self.0.insert::<ComponentEntry<T>>(handle)
    }

    /// Removes the handle recorded for `T` with `TypeMap::remove` and hands
    /// it back. Claimed: what comes back has left the record, and nothing
    /// else has.
    #[verifier::external_body]
    pub(crate) fn take<T: Component + 'static>(&mut self) -> (r: Option<Index>)
        ensures
            dropped(record_handles(*old(self)), record_handles(*final(self)), r),
    {
        self.0.remove::<ComponentEntry<T>>()
    }
}

} // verus!
