//! Resolved value handles for an incremental-computation engine.
//!
//! A handle names a result cell of a task. An unresolved handle may still
//! point at the output of a task that has not finished; a [`ResolvedVc`]
//! always names a fixed cell whose concrete type is known. This crate holds
//! the handle types, the type registry that answers which value traits a
//! concrete value type implements, a small task and cell store, the cast
//! protocol between trait views, and the resolution-safety predicate.
pub mod handle;
pub mod marker;
pub mod registry;
pub mod resolved;
pub mod safety;
pub mod store;
