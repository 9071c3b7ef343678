//! Slot storage addressed by generational handles.

pub mod history;
pub mod index;

use vstd::prelude::*;
use self::history::{is_history, lemma_live_was_issued, Step};
use self::index::{allocates, live_in, released, Allocator, Entry, Index};

verus! {

/// A vector of values addressed by handles.
///
/// It pairs an [`Allocator`] with a value array indexed by slot position. A
/// value is reached only through a live handle; the cell of a dead slot keeps
/// its last value until the slot is used again, and is never read.
pub struct GIVec<T> {
    allocator: Allocator,
    vec: Vec<T>,
}

impl<T> View for GIVec<T> {
    type V = Map<Index, T>;

    /// The values held, by the live handle of each.
    closed spec fn view(&self) -> Map<Index, T> {
        Map::new(|h: Index| live_in(self.allocator@, h), |h: Index| self.vec@[h.index as int])
    }
}

impl<T> GIVec<T> {
    /// Every slot has a cell in the value array.
    #[verifier::type_invariant]
    spec fn cells_cover_slots(self) -> bool {
        self.allocator@.len() == self.vec@.len()
    }

    /// The slots of the allocator inside.
    pub closed spec fn slots(self) -> Seq<Entry> {
        self.allocator@
    }

    /// The handles that hold a value are the live ones.
    pub proof fn lemma_holds_live(self, h: Index)
        ensures
            self@.contains_key(h) <==> live_in(self.slots(), h),
    {
    }

    /// A handle holds a value only if it was issued and not released since:
    /// where a history leads to the slots of this vector, a handle that no
    /// step issued, or that a later step released, holds nothing.
    pub proof fn lemma_holds_only_issued(
        self,
        states: Seq<Seq<Entry>>,
        steps: Seq<Step>,
        h: Index,
    )
        requires
            is_history(states, steps),
            states.last() == self.slots(),
            forall|i: int|
                0 <= i < steps.len() && #[trigger] steps[i] == Step::Allocate(h) ==> exists|k: int|
                    i < k < steps.len() && #[trigger] steps[k] == Step::Release(h),
        ensures
            !self@.contains_key(h),
    {
        if self@.contains_key(h) {
            let i = lemma_live_was_issued(states, steps, steps.len() as int, h);
        }
    }

    /// A vector without slots.
    pub fn new() -> (v: GIVec<T>)
        ensures
            v.slots() == Seq::<Entry>::empty(),
            v@ == Map::<Index, T>::empty(),
    {
        let v = GIVec { allocator: Allocator::new(), vec: Vec::new() };
        v
    }

    /// Stores `element` and returns its handle. The slot is the one the
    /// allocator picks: a dead slot, whose cell is overwritten, or a new
    /// slot, whose cell is appended.
    pub fn insert(&mut self, element: T) -> (h: Index)
        ensures
            allocates(old(self).slots(), final(self).slots(), h),
            !old(self)@.contains_key(h),
            final(self)@ == old(self)@.insert(h, element),
    {
        proof {
            use_type_invariant(&*self);
        }
        // Allocator and cells change one after the other. They are taken out
        // for that, so that the vector is never seen with a slot that has no
        // cell.
        let mut taken = GIVec::new();
        std::mem::swap(self, &mut taken);
        let GIVec { mut allocator, mut vec } = taken;
        let index = allocator.get();
        if index.index < vec.len() {
            vec[index.index] = element;
        } else {
            vec.push(element);
        }
        *self = GIVec { allocator, vec };
        index
    }

    /// The value that `index` names, if `index` is live.
    pub fn get(&self, index: &Index) -> (r: Option<&T>)
        ensures
            r == (if self@.contains_key(*index) { Some(&self@[*index]) } else { None::<&T> }),
    {
        proof {
            use_type_invariant(self);
        }
        if !self.allocator.is_live(index) {
            None
        } else {
            Some(&self.vec[index.index])
        }
    }

    /// The value that `index` names, for writing, if `index` is live. What
    /// is written through the reference is the value of `index` afterwards;
    /// nothing else changes.
    pub fn get_mut(&mut self, index: &Index) -> (r: Option<&mut T>)
        ensures
            final(self).slots() == old(self).slots(),
            match r {
                Some(v) => {
                    &&& old(self)@.contains_key(*index)
                    &&& *v == old(self)@[*index]
                    &&& final(self)@ == old(self)@.insert(*index, *final(v))
                },
                None => !old(self)@.contains_key(*index) && final(self)@ == old(self)@,
            },
    {
        proof {
            use_type_invariant(&*self);
        }
        if !self.allocator.is_live(index) {
            None
        } else {
            Some(&mut self.vec[index.index])
        }
    }

    /// Removes the value that `index` names, if `index` is live, and says
    /// whether it was. The slot dies; no other value moves.
    pub fn remove(&mut self, index: Index) -> (b: bool)
        ensures
            b == old(self)@.contains_key(index),
            final(self).slots() == released(old(self).slots(), index),
            final(self)@ == old(self)@.remove(index),
            !b ==> *final(self) == *old(self),
    {
        proof {
            use_type_invariant(&*self);
        }
        let b = self.allocator.release(index);
        b
    }
}

} // verus!
