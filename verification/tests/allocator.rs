use rust_engine::generational_index::index::{Allocator, Entry, Index};

#[test]
fn fresh_allocator_issues_slots_in_order() {
    let mut a = Allocator::new();
    assert_eq!(a.get(), Index { index: 0, generation: 0 });
    assert_eq!(a.get(), Index { index: 1, generation: 0 });
    assert_eq!(a.get(), Index { index: 2, generation: 0 });
}

#[test]
fn issued_handle_is_live() {
    let mut a = Allocator::new();
    let h = a.get();
    assert!(a.is_live(&h));
}

#[test]
fn nothing_is_live_in_a_fresh_allocator() {
    let a = Allocator::new();
    assert!(!a.is_live(&Index { index: 0, generation: 0 }));
}

#[test]
fn release_kills_the_handle() {
    let mut a = Allocator::new();
    let h = a.get();
    assert!(a.release(h));
    assert!(!a.is_live(&h));
}

#[test]
fn second_release_fails() {
    let mut a = Allocator::new();
    let h = a.get();
    assert!(a.release(h));
    assert!(!a.release(h));
}

#[test]
fn release_out_of_range_fails() {
    let mut a = Allocator::new();
    let _ = a.get();
    assert!(!a.release(Index { index: 1, generation: 0 }));
    assert!(!a.release(Index { index: usize::MAX, generation: 0 }));
}

#[test]
fn release_of_wrong_generation_fails_and_keeps_the_slot() {
    let mut a = Allocator::new();
    let h = a.get();
    assert!(!a.release(Index { index: h.index, generation: h.generation + 1 }));
    assert!(a.is_live(&h));
}

#[test]
fn release_leaves_other_slots_alone() {
    let mut a = Allocator::new();
    let h0 = a.get();
    let h1 = a.get();
    let h2 = a.get();
    assert!(a.release(h1));
    assert!(a.is_live(&h0));
    assert!(!a.is_live(&h1));
    assert!(a.is_live(&h2));
}

#[test]
fn reuse_raises_the_generation() {
    let mut a = Allocator::new();
    let h = a.get();
    assert!(a.release(h));
    let again = a.get();
    assert_eq!(again, Index { index: 0, generation: 1 });
    assert!(again.generation > h.generation);
    assert!(a.is_live(&again));
    assert!(!a.is_live(&h));
}

#[test]
fn stale_handle_cannot_release_the_new_tenant() {
    let mut a = Allocator::new();
    let h = a.get();
    assert!(a.release(h));
    let again = a.get();
    assert!(!a.release(h));
    assert!(a.is_live(&again));
}

#[test]
fn first_dead_slot_is_taken_first() {
    let mut a = Allocator::new();
    let h0 = a.get();
    let h1 = a.get();
    let h2 = a.get();
    assert!(a.release(h2));
    assert!(a.release(h1));
    assert_eq!(a.get(), Index { index: 1, generation: 1 });
    assert_eq!(a.get(), Index { index: 2, generation: 1 });
    assert_eq!(a.get(), Index { index: 3, generation: 0 });
    assert!(a.is_live(&h0));
}

#[test]
fn generation_counts_every_reuse() {
    let mut a = Allocator::new();
    let mut h = a.get();
    let mut round: usize = 0;
    while round < 5 {
        assert_eq!(h, Index { index: 0, generation: round });
        assert!(a.release(h));
        h = a.get();
        round += 1;
    }
    assert_eq!(h, Index { index: 0, generation: 5 });
}

#[test]
fn live_handles_are_pairwise_distinct() {
    let mut a = Allocator::new();
    let mut live: Vec<Index> = Vec::new();
    let mut round: usize = 0;
    while round < 40 {
        let h = a.get();
        assert!(!live.contains(&h));
        live.push(h);
        if round % 3 == 2 {
            let gone = live.remove(round % live.len());
            assert!(a.release(gone));
            assert!(!a.is_live(&gone));
        }
        for other in live.iter() {
            assert!(a.is_live(other));
        }
        round += 1;
    }
}

#[test]
fn released_handle_never_comes_back() {
    let mut a = Allocator::new();
    let h = a.get();
    assert!(a.release(h));
    let mut round: usize = 0;
    while round < 10 {
        let again = a.get();
        assert_ne!(again, h);
        assert!(!a.is_live(&h));
        assert!(a.release(again));
        round += 1;
    }
}

#[test]
fn entry_reports_state_and_generation() {
    assert!(Entry::Live(3).is_live());
    assert!(!Entry::Dead(3).is_live());
    assert_eq!(Entry::Live(3).value(), 3);
    assert_eq!(Entry::Dead(4).value(), 4);
}
