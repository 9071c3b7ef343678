//! Handles and the allocator that issues and invalidates them.

use vstd::prelude::*;

verus! {

/// A handle: slot `index`, in its `generation`-th use.
#[derive(Debug, Clone, Copy, PartialEq, Eq, Structural)]
pub struct Index {
    pub index: usize,
    pub generation: usize,
}

/// The state of one slot, with the generation of its current or last use.
#[derive(Debug, Clone, Copy, PartialEq, Eq, Structural)]
pub enum Entry {
    Live(usize),
    Dead(usize),
}

impl Entry {
    /// The generation recorded in the entry, live or dead.
    pub open spec fn generation(self) -> usize {
        match self {
            Entry::Live(g) => g,
            Entry::Dead(g) => g,
        }
    }

    /// A dead entry can be handed out again while its generation can still grow.
    pub open spec fn reusable(self) -> bool {
        self matches Entry::Dead(g) && g < usize::MAX
    }

    /// Whether the slot is in use.
    pub fn is_live(&self) -> (b: bool)
        ensures
            b == (*self is Live),
        no_unwind
    {
        match self {
            Entry::Live(_) => true,
            Entry::Dead(_) => false,
        }
    }

    /// The generation recorded in the entry.
    pub fn value(&self) -> (g: usize)
        ensures
            g == self.generation(),
        no_unwind
    {
        match self {
            Entry::Live(x) => *x,
            Entry::Dead(x) => *x,
        }
    }
}

/// `h` is live in `slots`: its slot exists, is live, and carries `h`'s generation.
pub open spec fn live_in(slots: Seq<Entry>, h: Index) -> bool {
    h.index < slots.len() && slots[h.index as int] == Entry::Live(h.generation)
}

/// An allocation takes `pre` to `post` and issues `h`.
///
/// The slot taken is the first reusable one, which comes back live with its
/// generation raised by one; if no slot is reusable, a new slot of generation
/// zero is appended. All other slots stay as they are. Given `pre`, this
/// holds of one `post` and one `h` only.
pub open spec fn allocates(pre: Seq<Entry>, post: Seq<Entry>, h: Index) -> bool {
    let i = h.index as int;
    &&& i <= pre.len()
    &&& forall|j: int| 0 <= j < i ==> !(#[trigger] pre[j]).reusable()
    &&& if i < pre.len() {
        &&& pre[i].reusable()
        &&& h.generation == pre[i].generation() + 1
        &&& post == pre.update(i, Entry::Live(h.generation))
    } else {
        &&& h.generation == 0
        &&& post == pre.push(Entry::Live(0))
    }
}

/// The slots after releasing `h`: its slot dies, keeping its generation, if
/// `h` is live; nothing changes otherwise.
pub open spec fn released(pre: Seq<Entry>, h: Index) -> Seq<Entry> {
    if live_in(pre, h) {
        pre.update(h.index as int, Entry::Dead(h.generation))
    } else {
        pre
    }
}

/// Issues handles and takes them back. It knows nothing of stored values.
pub struct Allocator {
    generations: Vec<Entry>,
}

impl View for Allocator {
    type V = Seq<Entry>;

    closed spec fn view(&self) -> Seq<Entry> {
        self.generations@
    }
}

impl Allocator {
    /// An allocator without slots.
    pub fn new() -> (a: Allocator)
        ensures
            a@ == Seq::<Entry>::empty(),
    {
        Allocator { generations: Vec::new() }
    }

    /// Allocates a handle: that of the first dead slot, in its next
    /// generation, or of a new slot where none is dead.
    ///
    /// A dead slot whose generation has reached `usize::MAX` has no next
    /// generation. It is passed over, now and ever after, so that no handle
    /// is issued twice.
    pub fn get(&mut self) -> (h: Index)
        ensures
            allocates(old(self)@, final(self)@, h),
            !live_in(old(self)@, h),
            live_in(final(self)@, h),
    {
        let n: usize = self.generations.len();
        let mut i: usize = 0;
        while i < n
            invariant
                i <= n,
                n == self.generations.len(),
                self.generations@ == old(self).generations@,
                forall|j: int| 0 <= j < i ==> !(#[trigger] self.generations@[j]).reusable(),
            decreases n - i,
        {
            let entry = self.generations[i];
            match entry {
                Entry::Dead(gen) => {
                    if gen < usize::MAX {
                        self.generations[i] = Entry::Live(gen + 1);
                        return Index { index: i, generation: gen + 1 };
                    }
                },
                Entry::Live(_) => {},
            }
            i += 1;
        }
        self.generations.push(Entry::Live(0));
        Index { index: n, generation: 0 }
    }

    /// Releases `index` if it is live, and says whether it was. A handle
    /// that is out of range, already released or of another generation is
    /// refused, and nothing changes.
    pub fn release(&mut self, index: Index) -> (b: bool)
        ensures
            b == live_in(old(self)@, index),
            final(self)@ == released(old(self)@, index),
            !b ==> *final(self) == *old(self),
        no_unwind
    {
        if index.index >= self.generations.len() {
            return false;
        }
        let entry = self.generations[index.index];
        match entry {
            Entry::Live(gen) => {
                if gen == index.generation {
                    self.generations[index.index] = Entry::Dead(gen);
                    true
                } else {
                    false
                }
            },
            Entry::Dead(_) => false,
        }
    }

    /// Whether `index` is live: issued, and not released since.
    pub fn is_live(&self, index: &Index) -> (b: bool)
        ensures
            b == live_in(self@, *index),
        no_unwind
    {
        if index.index < self.generations.len() {
            let entry = self.generations[index.index];
            entry.is_live() && entry.value() == index.generation
        } else {
            false
        }
    }
}

} // verus!
