use rust_engine::ecs::{resolve, Component, Ecs, Handle};
use rust_engine::generational_index::index::Index;
use rust_engine::generational_index::GIVec;

#[derive(Debug, PartialEq)]
struct Point {
    x: i32,
    y: i32,
}

impl Component for Point {}

#[derive(Debug, PartialEq)]
struct Name(String);

impl Component for Name {}

#[test]
fn add_get_remove_point() {
    let mut s = Ecs::new();
    let e = s.create_entity();
    assert!(s.add_comp(&e, Point { x: 1, y: 2 }));
    assert!(!s.add_comp(&e, Point { x: 3, y: 8 }));
    assert_eq!(s.get_comp::<Point>(&e), Some(&Point { x: 1, y: 2 }));
    assert!(s.remove_comp::<Point>(&e));
    assert_eq!(s.get_comp::<Point>(&e), None);
}

#[test]
fn deleted_entity_has_no_components() {
    let mut s = Ecs::new();
    let e1 = s.create_entity();
    let e2 = s.create_entity();
    assert!(s.add_comp(&e1, Point { x: 1, y: 2 }));
    assert!(s.add_comp(&e2, Point { x: 5, y: 6 }));
    assert!(s.delete_entity(e1));
    assert_eq!(s.get_comp::<Point>(&e1), None);
    assert_eq!(s.get_comp::<Point>(&e2), Some(&Point { x: 5, y: 6 }));
    assert!(s.add_comp(&e2, Name(String::from("two"))));
    assert!(s.remove_comp::<Point>(&e2));
    assert_eq!(s.get_comp::<Point>(&e2), None);
    assert_eq!(s.get_comp::<Name>(&e2), Some(&Name(String::from("two"))));
}

#[test]
fn entities_get_distinct_handles() {
    let mut s = Ecs::new();
    let e1 = s.create_entity();
    let e2 = s.create_entity();
    assert_eq!(e1, Index { index: 0, generation: 0 });
    assert_eq!(e2, Index { index: 1, generation: 0 });
}

#[test]
fn delete_entity_twice_fails_the_second_time() {
    let mut s = Ecs::new();
    let e = s.create_entity();
    assert!(s.delete_entity(e));
    assert!(!s.delete_entity(e));
}

#[test]
fn delete_of_unknown_entity_fails() {
    let mut s = Ecs::new();
    assert!(!s.delete_entity(Index { index: 0, generation: 0 }));
    let _ = s.create_entity();
    assert!(!s.delete_entity(Index { index: 0, generation: 1 }));
    assert!(!s.delete_entity(Index { index: 5, generation: 0 }));
}

#[test]
fn add_to_dead_entity_fails() {
    let mut s = Ecs::new();
    let e = s.create_entity();
    assert!(s.delete_entity(e));
    assert!(!s.add_comp(&e, Point { x: 1, y: 2 }));
    assert_eq!(s.get_comp::<Point>(&e), None);
}

#[test]
fn add_to_unknown_entity_fails() {
    let mut s = Ecs::new();
    let nobody: Handle = Index { index: 3, generation: 0 };
    assert!(!s.add_comp(&nobody, Point { x: 1, y: 2 }));
    assert_eq!(s.get_comp::<Point>(&nobody), None);
    assert!(!s.remove_comp::<Point>(&nobody));
}

#[test]
fn second_add_keeps_the_first_value() {
    let mut s = Ecs::new();
    let e = s.create_entity();
    assert!(s.add_comp(&e, Name(String::from("first"))));
    assert!(!s.add_comp(&e, Name(String::from("second"))));
    assert_eq!(s.get_comp::<Name>(&e), Some(&Name(String::from("first"))));
}

#[test]
fn rejected_add_does_not_disturb_other_entities() {
    let mut s = Ecs::new();
    let e1 = s.create_entity();
    let e2 = s.create_entity();
    assert!(s.add_comp(&e1, Point { x: 1, y: 2 }));
    assert!(s.add_comp(&e2, Point { x: 5, y: 6 }));
    assert!(!s.add_comp(&e1, Point { x: 3, y: 8 }));
    assert_eq!(s.get_comp::<Point>(&e1), Some(&Point { x: 1, y: 2 }));
    assert_eq!(s.get_comp::<Point>(&e2), Some(&Point { x: 5, y: 6 }));
    assert!(s.remove_comp::<Point>(&e2));
    assert!(s.add_comp(&e2, Point { x: 7, y: 8 }));
    assert_eq!(s.get_comp::<Point>(&e1), Some(&Point { x: 1, y: 2 }));
    assert_eq!(s.get_comp::<Point>(&e2), Some(&Point { x: 7, y: 8 }));
}

#[test]
fn remove_of_absent_component_fails() {
    let mut s = Ecs::new();
    let e = s.create_entity();
    assert!(!s.remove_comp::<Point>(&e));
    assert!(s.add_comp(&e, Name(String::from("only"))));
    assert!(!s.remove_comp::<Point>(&e));
    assert_eq!(s.get_comp::<Name>(&e), Some(&Name(String::from("only"))));
}

#[test]
fn remove_twice_fails_the_second_time_for_components() {
    let mut s = Ecs::new();
    let e = s.create_entity();
    assert!(s.add_comp(&e, Point { x: 1, y: 2 }));
    assert!(s.remove_comp::<Point>(&e));
    assert!(!s.remove_comp::<Point>(&e));
}

#[test]
fn component_can_be_added_again_after_removal() {
    let mut s = Ecs::new();
    let e = s.create_entity();
    assert!(s.add_comp(&e, Point { x: 1, y: 2 }));
    assert!(s.remove_comp::<Point>(&e));
    assert!(s.add_comp(&e, Point { x: 3, y: 8 }));
    assert_eq!(s.get_comp::<Point>(&e), Some(&Point { x: 3, y: 8 }));
}

#[test]
fn component_types_do_not_mix() {
    let mut s = Ecs::new();
    let e = s.create_entity();
    assert!(s.add_comp(&e, Point { x: 1, y: 2 }));
    assert_eq!(s.get_comp::<Name>(&e), None);
    assert!(s.add_comp(&e, Name(String::from("e"))));
    assert_eq!(s.get_comp::<Point>(&e), Some(&Point { x: 1, y: 2 }));
    assert_eq!(s.get_comp::<Name>(&e), Some(&Name(String::from("e"))));
    assert!(s.remove_comp::<Name>(&e));
    assert_eq!(s.get_comp::<Point>(&e), Some(&Point { x: 1, y: 2 }));
    assert_eq!(s.get_comp::<Name>(&e), None);
}

#[test]
fn entities_keep_their_own_components() {
    let mut s = Ecs::new();
    let e1 = s.create_entity();
    let e2 = s.create_entity();
    assert!(s.add_comp(&e1, Point { x: 1, y: 2 }));
    assert!(s.add_comp(&e2, Point { x: 3, y: 4 }));
    assert_eq!(s.get_comp::<Point>(&e1), Some(&Point { x: 1, y: 2 }));
    assert_eq!(s.get_comp::<Point>(&e2), Some(&Point { x: 3, y: 4 }));
    assert!(s.remove_comp::<Point>(&e1));
    assert_eq!(s.get_comp::<Point>(&e1), None);
    assert_eq!(s.get_comp::<Point>(&e2), Some(&Point { x: 3, y: 4 }));
}

#[test]
fn stale_entity_handle_does_not_reach_the_new_entity() {
    let mut s = Ecs::new();
    let old = s.create_entity();
    assert!(s.add_comp(&old, Point { x: 1, y: 2 }));
    assert!(s.delete_entity(old));
    let new = s.create_entity();
    assert_eq!(new, Index { index: 0, generation: 1 });
    assert_eq!(s.get_comp::<Point>(&new), None);
    assert!(s.add_comp(&new, Point { x: 9, y: 9 }));
    assert_eq!(s.get_comp::<Point>(&old), None);
    assert!(!s.add_comp(&old, Point { x: 0, y: 0 }));
    assert!(!s.remove_comp::<Point>(&old));
    assert_eq!(s.get_comp::<Point>(&new), Some(&Point { x: 9, y: 9 }));
}

#[test]
fn delete_entity_leaves_the_components_of_others() {
    let mut s = Ecs::new();
    let e1 = s.create_entity();
    let e2 = s.create_entity();
    assert!(s.add_comp(&e1, Point { x: 1, y: 2 }));
    assert!(s.add_comp(&e1, Name(String::from("one"))));
    assert!(s.add_comp(&e2, Point { x: 3, y: 4 }));
    assert!(s.delete_entity(e1));
    assert_eq!(s.get_comp::<Point>(&e1), None);
    assert_eq!(s.get_comp::<Name>(&e1), None);
    assert_eq!(s.get_comp::<Point>(&e2), Some(&Point { x: 3, y: 4 }));
    let e3 = s.create_entity();
    assert!(s.add_comp(&e3, Point { x: 5, y: 6 }));
    assert_eq!(s.get_comp::<Point>(&e2), Some(&Point { x: 3, y: 4 }));
    assert_eq!(s.get_comp::<Point>(&e3), Some(&Point { x: 5, y: 6 }));
    assert_eq!(s.get_comp::<Name>(&e3), None);
}

#[test]
fn resolve_follows_a_live_handle() {
    let mut store: GIVec<Point> = GIVec::new();
    let h0 = store.insert(Point { x: 1, y: 2 });
    let h1 = store.insert(Point { x: 3, y: 4 });
    assert_eq!(resolve(Some(h0), Some(&store)), Some(&Point { x: 1, y: 2 }));
    assert_eq!(resolve(Some(h1), Some(&store)), Some(&Point { x: 3, y: 4 }));
}

#[test]
fn resolve_finds_nothing_without_handle_or_store() {
    let mut store: GIVec<Point> = GIVec::new();
    let h = store.insert(Point { x: 1, y: 2 });
    assert_eq!(resolve(None, Some(&store)), None);
    assert_eq!(resolve::<Point>(Some(h), None), None);
    assert_eq!(resolve::<Point>(None, None), None);
}

#[test]
fn resolve_finds_nothing_for_a_stale_handle() {
    let mut store: GIVec<Point> = GIVec::new();
    let h = store.insert(Point { x: 1, y: 2 });
    assert!(store.remove(h));
    assert_eq!(resolve(Some(h), Some(&store)), None);
    let again = store.insert(Point { x: 3, y: 4 });
    assert_eq!(resolve(Some(h), Some(&store)), None);
    assert_eq!(resolve(Some(again), Some(&store)), Some(&Point { x: 3, y: 4 }));
}
