//! Generational handles into growable slot storage, and an entity-component
//! registry built on them.
//!
//! A handle is a slot position paired with a generation. A slot that is
//! handed out again gets a higher generation, so a handle that outlived its
//! record is recognised as stale and never resolves to the record that took
//! its place.

pub mod ecs;
pub mod generational_index;
