//! One store per component type.

use std::marker::PhantomData;
use typemap::{Key, TypeMap};
use vstd::multiset::Multiset;
use vstd::prelude::*;
use super::Component;
use crate::generational_index::index::{allocates, live_in, released, Entry, Index};
use crate::generational_index::GIVec;

verus! {

/// Keys the stores by component type `T`: the value is the store of `T`.
struct ComponentRegister<T: Component>(PhantomData<T>);

impl<T: Component + 'static> Key for ComponentRegister<T> {
    type Value = GIVec<T>;
}

/// The stores of all component types in use, each a [`GIVec`] of its type.
///
/// They are kept in a `typemap::TypeMap`, which is opaque to the verifier.
/// What it holds is told by [`store_slots`], without the types and without
/// the values.
#[verifier::external_body]
pub struct ComponentStores(TypeMap);

/// The slots of each store that `stores` holds, one entry for each component
/// type that has a store. Of which type a store is is not told: a
/// specification cannot speak of a type's identity, so that two lookups are
/// known to meet the same store only by what they hand back.
pub uninterp spec fn store_slots(stores: ComponentStores) -> Multiset<Seq<Entry>>;

/// `post` is `pre` with one store taken from slots `a` to slots `b`.
pub open spec fn rewritten(
    pre: Multiset<Seq<Entry>>,
    post: Multiset<Seq<Entry>>,
    a: Seq<Entry>,
    b: Seq<Entry>,
) -> bool {
    pre.contains(a) && post == pre.remove(a).insert(b)
}

/// `post` is `pre` after a store with slots `b` was put in and `replaced`
/// came back: the store is added, or stands in the place of the one that
/// left.
pub open spec fn stored(
    pre: Multiset<Seq<Entry>>,
    post: Multiset<Seq<Entry>>,
    b: Seq<Entry>,
    replaced: Option<Seq<Entry>>,
) -> bool {
    match replaced {
        None => post == pre.insert(b),
        Some(p) => rewritten(pre, post, p, b),
    }
}

/// `post` is `pre` after one store has issued `h`: a store that was there,
/// by one allocation, or a store that is new, by its first. The new store is
/// added, or stands in the place of one that left.
pub open spec fn issued(pre: Multiset<Seq<Entry>>, post: Multiset<Seq<Entry>>, h: Index) -> bool {
    exists|a: Seq<Entry>, b: Seq<Entry>|
        #![trigger allocates(a, b, h)]
        allocates(a, b, h) && (rewritten(pre, post, a, b) || (a.len() == 0 && exists|
            r: Option<Seq<Entry>>,
        | #[trigger] stored(pre, post, b, r)))
}

/// `post` is `pre` after a removal of `h` that answered `done`: one store in
/// which `h` was live has released it, or nothing has changed.
pub open spec fn freed(
    pre: Multiset<Seq<Entry>>,
    post: Multiset<Seq<Entry>>,
    h: Index,
    done: bool,
) -> bool {
    if done {
        exists|a: Seq<Entry>| live_in(a, h) && #[trigger] rewritten(pre, post, a, released(a, h))
    } else {
        post == pre
    }
}

/// Puts `comp` into the store that a lookup has `found`, or into a store
/// made for it where the lookup found none. Returns the handle of `comp`
/// and, where the store is new, that store, which is then to be kept.
pub fn place<T>(found: Option<&mut GIVec<T>>, comp: T) -> (r: (Index, Option<GIVec<T>>))
    ensures
        match found {
            Some(s) => {
                &&& r.1 is None
                &&& allocates(s.slots(), final(s).slots(), r.0)
                &&& final(s)@ == s@.insert(r.0, comp)
            },
            None => {
                &&& r.1 matches Some(n)
                &&& allocates(Seq::<Entry>::empty(), n.slots(), r.0)
                &&& n@ == Map::<Index, T>::empty().insert(r.0, comp)
            },
        },
{
    match found {
        Some(store) => {
            let handle = store.insert(comp);
            (handle, None)
        },
        None => {
            let mut store = GIVec::new();
            let handle = store.insert(comp);
            (handle, Some(store))
        },
    }
}

/// Releases from `store` the handle that a record was `held` to have, and
/// says whether it did: it does where there is a handle and the handle is
/// live in `store`. A store that refuses is left as it was.
pub fn release_held<T>(held: Option<Index>, store: &mut GIVec<T>) -> (b: bool)
    ensures
        b == (held matches Some(h) && old(store)@.contains_key(h)),
        held matches Some(h) ==> final(store).slots() == released(old(store).slots(), h)
            && final(store)@ == old(store)@.remove(h),
        !b ==> *final(store) == *old(store),
{
    match held {
        Some(handle) => store.remove(handle),
        None => false,
    }
}

impl ComponentStores {
    /// No stores, made by `TypeMap::new`, which makes an empty map.
    #[verifier::external_body]
    pub(crate) fn new() -> (stores: ComponentStores)
        ensures
            store_slots(stores) == Multiset::<Seq<Entry>>::empty(),
    {
        ComponentStores(TypeMap::new())
    }

    /// Makes `store` the store of `T` with `TypeMap::insert`, which hands
    /// back the store it replaces. Claimed: the stores hold `store` in
    /// addition where nothing comes back, and in the place of what comes
    /// back otherwise.
    #[verifier::external_body]
    pub(crate) fn add<T: Component + 'static>(&mut self, store: GIVec<T>) -> (r: Option<GIVec<T>>)
        ensures
            stored(
                store_slots(*old(self)),
                store_slots(*final(self)),
                store.slots(),
                match r {
                    Some(p) => Some(p.slots()),
                    None => None,
                },
            ),
    {
        self.0.insert::<ComponentRegister<T>>(store)
    }

    /// The store of `T`, as `TypeMap::get` finds it. Claimed: what is found
    /// is one of the stores held.
    #[verifier::external_body]
    pub(crate) fn store<T: Component + 'static>(&self) -> (r: Option<&GIVec<T>>)
        ensures
            r matches Some(s) ==> store_slots(*self).contains(s.slots()),
    {
        self.0.get::<ComponentRegister<T>>()
    }

    /// The store of `T` for writing, as `TypeMap::get_mut` finds it.
    /// Claimed: what is found is one of the stores held, and what is written
    /// to it is what the stores hold in its place afterwards; where nothing
    /// is found, or nothing is written, the stores are as before.
    #[verifier::external_body]
    pub(crate) fn store_mut<T: Component + 'static>(&mut self) -> (r: Option<&mut GIVec<T>>)
        ensures
            match r {
                Some(s) => {
                    &&& rewritten(
                        store_slots(*old(self)),
                        store_slots(*final(self)),
                        s.slots(),
                        final(s).slots(),
                    )
                    &&& *final(s) == *s ==> *final(self) == *old(self)
                },
                None => *final(self) == *old(self),
            },
    {
        self.0.get_mut::<ComponentRegister<T>>()
    }

    /// Puts `comp` into the store of `T` and returns its handle there. The
    /// first component of a type brings the store of that type with it.
    pub(crate) fn create_comp<T: Component + 'static>(&mut self, comp: T) -> (h: Index)
        ensures
            issued(store_slots(*old(self)), store_slots(*final(self)), h),
    {
        let (handle, fresh) = place(self.store_mut::<T>(), comp);
        match fresh {
            Some(store) => {
                let _ = self.add::<T>(store);
            },
            None => {},
        }
        handle
    }

    /// Removes the component of type `T` that `handle` names, and says
    /// whether there was one.
    pub(crate) fn remove_from_store<T: Component + 'static>(&mut self, handle: Index) -> (b: bool)
        ensures
            freed(store_slots(*old(self)), store_slots(*final(self)), handle, b),
            !b ==> *final(self) == *old(self),
    {
        let ghost pre = store_slots(*self);
        let ghost mut found = Seq::<Entry>::empty();
        let done = match self.store_mut::<T>() {
            Some(store) => {
                proof {
                    found = store.slots();
                    store.lemma_holds_live(handle);
                }
                release_held(Some(handle), store)
            },
            None => false,
        };
        proof {
            if !done {
                assert(pre.contains(found) ==> pre.remove(found).insert(found) =~= pre);
            }
        }
        done
    }
}

} // verus!
