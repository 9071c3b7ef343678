//! What holds of every sequence of allocations and releases.
//!
//! A history lists the states an allocator passes through and the step that
//! leads from each to the next. The lemmas speak of handles over a whole
//! history: handles that are live together differ, a released handle never
//! comes back, and every live handle was issued.

use vstd::prelude::*;
use super::index::{allocates, live_in, released, Entry, Index};

verus! {

/// One operation on an allocator.
pub enum Step {
    /// An allocation, with the handle it issued.
    Allocate(Index),
    /// A release of the given handle, live or not.
    Release(Index),
}

/// `step` takes the slots `pre` to `post`.
pub open spec fn steps_to(pre: Seq<Entry>, step: Step, post: Seq<Entry>) -> bool {
    match step {
        Step::Allocate(h) => allocates(pre, post, h),
        Step::Release(h) => post == released(pre, h),
    }
}

/// `states` are the slots before, between and after `steps`, in order.
pub open spec fn is_run(states: Seq<Seq<Entry>>, steps: Seq<Step>) -> bool {
    &&& states.len() == steps.len() + 1
    &&& forall|k: int|
        0 <= k < steps.len() ==> steps_to(states[k], #[trigger] steps[k], states[k + 1])
}

/// A run that starts from an allocator without slots.
pub open spec fn is_history(states: Seq<Seq<Entry>>, steps: Seq<Step>) -> bool {
    is_run(states, steps) && states[0].len() == 0
}

/// `h` can never be live again in `slots`: its slot has moved past `h`'s
/// generation, or lies dead at it.
pub open spec fn spent(slots: Seq<Entry>, h: Index) -> bool {
    &&& h.index < slots.len()
    &&& (slots[h.index as int].generation() > h.generation
        || slots[h.index as int] == Entry::Dead(h.generation))
}

/// An allocation issues a handle that was not live, and that is live after it;
/// every other handle is live after it exactly if it was before.
pub proof fn lemma_allocation_is_fresh(pre: Seq<Entry>, post: Seq<Entry>, h: Index)
    requires
        allocates(pre, post, h),
    ensures
        !live_in(pre, h),
        live_in(post, h),
        forall|k: Index| k != h ==> live_in(post, k) == live_in(pre, k),
{
}

/// Releasing a live handle leaves it dead, so that a second release of the
/// same handle finds nothing to do: the first succeeds and the second fails.
pub proof fn lemma_release_twice(pre: Seq<Entry>, h: Index)
    requires
        live_in(pre, h),
    ensures
        !live_in(released(pre, h), h),
        spent(released(pre, h), h),
        released(released(pre, h), h) == released(pre, h),
{
}

/// A release touches no handle but its own.
pub proof fn lemma_release_keeps_others(pre: Seq<Entry>, h: Index, k: Index)
    requires
        k != h,
    ensures
        live_in(released(pre, h), k) == live_in(pre, k),
{
}

/// No step shortens the slots, lowers a generation, or revives a spent handle.
pub proof fn lemma_step_keeps_spent(pre: Seq<Entry>, step: Step, post: Seq<Entry>, h: Index)
    requires
        steps_to(pre, step, post),
        spent(pre, h),
    ensures
        spent(post, h),
{
}

/// A spent handle stays spent through the rest of a run.
pub proof fn lemma_spent_persists(
    states: Seq<Seq<Entry>>,
    steps: Seq<Step>,
    from: int,
    to: int,
    h: Index,
)
    requires
        is_run(states, steps),
        0 <= from <= to < states.len(),
        spent(states[from], h),
    ensures
        spent(states[to], h),
    decreases to - from,
{
    if from < to {
        lemma_spent_persists(states, steps, from, to - 1, h);
        lemma_step_keeps_spent(states[to - 1], steps[to - 1], states[to], h);
    }
}

/// A live handle stays live for as long as no step releases it.
pub proof fn lemma_live_until_released(
    states: Seq<Seq<Entry>>,
    steps: Seq<Step>,
    from: int,
    to: int,
    h: Index,
)
    requires
        is_run(states, steps),
        0 <= from <= to < states.len(),
        live_in(states[from], h),
        forall|k: int| from <= k < to ==> #[trigger] steps[k] != Step::Release(h),
    ensures
        live_in(states[to], h),
    decreases to - from,
{
    if from < to {
        lemma_live_until_released(states, steps, from, to - 1, h);
        let pre = states[to - 1];
        let post = states[to];
        match steps[to - 1] {
            Step::Allocate(g) => {
                lemma_allocation_is_fresh(pre, post, g);
            },
            Step::Release(r) => {
                lemma_release_keeps_others(pre, r, h);
            },
        }
    }
}

/// Two handles that are live at the same time differ: where a run issues `a`
/// and later `b`, and does not release `a` in between, `a` is not `b`.
pub proof fn lemma_live_handles_differ(
    states: Seq<Seq<Entry>>,
    steps: Seq<Step>,
    i: int,
    j: int,
    a: Index,
    b: Index,
)
    requires
        is_run(states, steps),
        0 <= i < j < steps.len(),
        steps[i] == Step::Allocate(a),
        steps[j] == Step::Allocate(b),
        forall|k: int| i < k < j ==> #[trigger] steps[k] != Step::Release(a),
    ensures
        a != b,
{
    lemma_allocation_is_fresh(states[i], states[i + 1], a);
    lemma_live_until_released(states, steps, i + 1, j, a);
    lemma_allocation_is_fresh(states[j], states[j + 1], b);
}

/// Once a run has released a live handle, the handle is live in no later
/// state, whatever is allocated or released after it.
pub proof fn lemma_released_stays_dead(
    states: Seq<Seq<Entry>>,
    steps: Seq<Step>,
    i: int,
    to: int,
    h: Index,
)
    requires
        is_run(states, steps),
        0 <= i < to < states.len(),
        steps[i] == Step::Release(h),
        live_in(states[i], h),
    ensures
        !live_in(states[to], h),
{
    lemma_release_twice(states[i], h);
    lemma_spent_persists(states, steps, i + 1, to, h);
}

/// An allocation that takes the slot of a handle released earlier in the run
/// issues a higher generation than that handle had.
pub proof fn lemma_reuse_raises_generation(
    states: Seq<Seq<Entry>>,
    steps: Seq<Step>,
    i: int,
    j: int,
    h: Index,
    g: Index,
)
    requires
        is_run(states, steps),
        0 <= i < j < steps.len(),
        steps[i] == Step::Release(h),
        live_in(states[i], h),
        steps[j] == Step::Allocate(g),
        g.index == h.index,
    ensures
        g.generation > h.generation,
{
    lemma_release_twice(states[i], h);
    lemma_spent_persists(states, steps, i + 1, j, h);
}

/// A handle that is live after `n` steps of a history was issued by one of
/// them and has not been released since. The step that issued it is returned.
pub proof fn lemma_live_was_issued(
    states: Seq<Seq<Entry>>,
    steps: Seq<Step>,
    n: int,
    h: Index,
) -> (i: int)
    requires
        is_history(states, steps),
        0 <= n <= steps.len(),
        live_in(states[n], h),
    ensures
        0 <= i < n,
        steps[i] == Step::Allocate(h),
        forall|k: int| i < k < n ==> #[trigger] steps[k] != Step::Release(h),
    decreases n,
{
    if n == 0 {
        0
    } else {
        let pre = states[n - 1];
        let post = states[n];
        if live_in(pre, h) {
            let i = lemma_live_was_issued(states, steps, n - 1, h);
            if steps[n - 1] == Step::Release(h) {
                lemma_release_twice(pre, h);
            }
            i
        } else {
            match steps[n - 1] {
                Step::Allocate(g) => {
                    lemma_allocation_is_fresh(pre, post, g);
                },
                Step::Release(r) => {},
            }
            n - 1
        }
    }
}

} // verus!
