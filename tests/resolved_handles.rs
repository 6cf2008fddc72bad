use std::collections::hash_map::DefaultHasher;
use std::collections::BTreeMap;
use std::hash::{Hash, Hasher};

use resolved_vc::handle::{RawVc, ResolveTypeError, Settle, Vc, ViewTag};
use resolved_vc::marker::ResolvedValue;
use resolved_vc::registry::{contains_u32, RegistryError, TypeRegistry};
use resolved_vc::resolved::ResolvedVc;
use resolved_vc::safety::{is_fully_resolved, TypeShape};
use resolved_vc::store::{TaskState, TaskStore};

/// A registry with a trait `Displayable` (0), a trait `Numeric` (1) that
/// requires it, an integer type (0) implementing both and a string type (1)
/// implementing `Displayable`.
fn setup() -> (TypeRegistry, u32, u32, u32, u32) {
    let mut reg = TypeRegistry::new();
    let displayable = reg.register_trait(vec![]).unwrap();
    let numeric = reg.register_trait(vec![displayable]).unwrap();
    let integer = reg.register_type(vec![displayable, numeric], true).unwrap();
    let string = reg.register_type(vec![displayable], true).unwrap();
    (reg, displayable, numeric, integer, string)
}

fn hash_of<T: Hash>(v: &T) -> u64 {
    let mut h = DefaultHasher::new();
    v.hash(&mut h);
    h.finish()
}

fn assert_resolved_value<T: ResolvedValue + ?Sized>() {}

#[test]
fn integer_cell_upcast_and_downcast() {
    let (reg, displayable, _numeric, integer, string) = setup();
    let mut store: TaskStore<i64> = TaskStore::new();
    let task = store.add_task();
    let rv = ResolvedVc::cell(&mut store, &reg, task, integer, 42);
    assert_eq!(rv.node.node, RawVc::TaskCell(task, 0));
    assert_eq!(store.read_cell(rv.node.node), Some(&42));
    let shown = ResolvedVc::upcast(rv, &reg, displayable);
    assert_eq!(shown.node.view, ViewTag::Trait(displayable));
    assert_eq!(shown.node.node, rv.node.node);
    assert_eq!(ResolvedVc::try_downcast_type(shown, &store, &reg, string), Ok(None));
    assert_eq!(ResolvedVc::try_downcast_type(shown, &store, &reg, integer), Ok(Some(rv)));
}

#[test]
fn resolved_handle_keeps_identity() {
    let (reg, _d, _n, integer, _s) = setup();
    let mut store: TaskStore<i64> = TaskStore::new();
    let task = store.add_task();
    let rv = ResolvedVc::cell_private(&mut store, &reg, task, integer, 7);
    let h = rv.as_vc();
    assert_eq!(hash_of(&rv), hash_of(&h));
    let again = match h.to_resolved(&store, &reg) {
        Settle::Settled(Ok(r)) => r,
        other => panic!("unexpected {:?}", other),
    };
    assert_eq!(again, rv);
    assert_eq!(hash_of(&again), hash_of(&h));
    let copy = rv;
    assert_eq!(copy, rv);
}

#[test]
fn resolving_task_output_follows_to_cell() {
    let (reg, _d, _n, integer, _s) = setup();
    let mut store: TaskStore<i64> = TaskStore::new();
    let producer = store.add_task();
    let cell = store.alloc_cell(producer, integer, 5);
    let forwarder = store.add_task();
    store.set_state(producer, TaskState::Done(cell));
    store.set_state(forwarder, TaskState::Done(RawVc::TaskOutput(producer)));
    let h = Vc { node: RawVc::TaskOutput(forwarder), view: ViewTag::Type(integer) };
    let expected = ResolvedVc { node: Vc { node: cell, view: ViewTag::Type(integer) } };
    assert_eq!(h.to_resolved(&store, &reg), Settle::Settled(Ok(expected)));
    assert_eq!(expected.as_vc().to_resolved(&store, &reg), Settle::Settled(Ok(expected)));
}

#[test]
fn upcast_then_downcast_round_trips() {
    let (reg, displayable, numeric, integer, _s) = setup();
    let mut store: TaskStore<i64> = TaskStore::new();
    let task = store.add_task();
    let rv = ResolvedVc::cell(&mut store, &reg, task, integer, 1);
    for k in [displayable, numeric] {
        let up = ResolvedVc::upcast(rv, &reg, k);
        assert_eq!(ResolvedVc::try_downcast_type(up, &store, &reg, integer), Ok(Some(rv)));
    }
    let num = ResolvedVc::upcast(rv, &reg, numeric);
    let wide = ResolvedVc::upcast(num, &reg, displayable);
    assert_eq!(wide.node.view, ViewTag::Trait(displayable));
    assert_eq!(ResolvedVc::try_downcast(wide, &store, &reg, numeric), Ok(Some(num)));
}

#[test]
fn downcast_matches_only_stored_type() {
    let (reg, displayable, numeric, integer, string) = setup();
    let mut store: TaskStore<&str> = TaskStore::new();
    let task = store.add_task();
    let rv = ResolvedVc::cell(&mut store, &reg, task, string, "text");
    let shown = ResolvedVc::upcast(rv, &reg, displayable);
    assert_eq!(ResolvedVc::try_downcast_type(shown, &store, &reg, string), Ok(Some(rv)));
    assert_eq!(ResolvedVc::try_downcast_type(shown, &store, &reg, integer), Ok(None));
    assert_eq!(ResolvedVc::try_downcast(shown, &store, &reg, numeric), Ok(None));
    assert_eq!(ResolvedVc::try_sidecast(shown, &store, &reg, numeric), Ok(None));
    assert_eq!(
        ResolvedVc::try_sidecast(shown, &store, &reg, displayable),
        Ok(Some(shown))
    );
}

#[test]
fn sidecast_to_implemented_trait_matches() {
    let mut reg = TypeRegistry::new();
    let a = reg.register_trait(vec![]).unwrap();
    let b = reg.register_trait(vec![]).unwrap();
    let both = reg.register_type(vec![a, b], false).unwrap();
    let mut store: TaskStore<u8> = TaskStore::new();
    let task = store.add_task();
    let rv = ResolvedVc::cell_private(&mut store, &reg, task, both, 3);
    let as_a = ResolvedVc::upcast(rv, &reg, a);
    let as_b = ResolvedVc::try_sidecast(as_a, &store, &reg, b).unwrap().unwrap();
    assert_eq!(as_b.node.view, ViewTag::Trait(b));
    assert_eq!(as_b.node.node, rv.node.node);
}

#[test]
fn failed_task_is_an_error_not_a_non_match() {
    let (reg, displayable, _n, integer, string) = setup();
    let mut store: TaskStore<i64> = TaskStore::new();
    let task = store.add_task();
    store.set_state(task, TaskState::Failed);
    let h = Vc { node: RawVc::TaskOutput(task), view: ViewTag::Trait(displayable) };
    assert_eq!(
        h.to_resolved(&store, &reg),
        Settle::Settled(Err(ResolveTypeError::TaskFailed(task)))
    );
    assert_eq!(
        h.try_resolve_downcast_type(&store, &reg, integer),
        Settle::Settled(Err(ResolveTypeError::TaskFailed(task)))
    );
    assert_eq!(
        h.try_resolve_sidecast(&store, &reg, displayable),
        Settle::Settled(Err(ResolveTypeError::TaskFailed(task)))
    );
    let good = store.add_task();
    let cell = store.alloc_cell(good, integer, 9);
    store.set_state(good, TaskState::Done(cell));
    let h2 = Vc { node: RawVc::TaskOutput(good), view: ViewTag::Trait(displayable) };
    assert_eq!(h2.try_resolve_downcast_type(&store, &reg, string), Settle::Settled(Ok(None)));
}

#[test]
fn pending_task_waits() {
    let (reg, displayable, _n, integer, _s) = setup();
    let mut store: TaskStore<i64> = TaskStore::new();
    let task = store.add_task();
    let h = Vc { node: RawVc::TaskOutput(task), view: ViewTag::Trait(displayable) };
    assert_eq!(h.to_resolved(&store, &reg), Settle::Waiting(task));
    assert_eq!(h.try_resolve_downcast_type(&store, &reg, integer), Settle::Waiting(task));
}

#[test]
fn resolution_errors() {
    let (reg, displayable, _n, integer, string) = setup();
    let mut store: TaskStore<i64> = TaskStore::new();
    let task = store.add_task();
    // A task that does not exist.
    let missing = Vc { node: RawVc::TaskOutput(9), view: ViewTag::Type(integer) };
    assert_eq!(missing.to_resolved(&store, &reg), Settle::Settled(Err(ResolveTypeError::NoContent)));
    // A cell that does not exist.
    let no_cell = Vc { node: RawVc::TaskCell(task, 3), view: ViewTag::Type(integer) };
    assert_eq!(no_cell.to_resolved(&store, &reg), Settle::Settled(Err(ResolveTypeError::NoContent)));
    // A cell of a type that the registry does not know.
    let odd = store.alloc_cell(task, 77, 0);
    let unknown = Vc { node: odd, view: ViewTag::Trait(displayable) };
    assert_eq!(
        unknown.to_resolved(&store, &reg),
        Settle::Settled(Err(ResolveTypeError::UnknownType(77)))
    );
    let stale = ResolvedVc { node: unknown };
    assert_eq!(
        ResolvedVc::try_sidecast(stale, &store, &reg, displayable),
        Err(ResolveTypeError::UnknownType(77))
    );
    // A cell whose type does not fit the view.
    let int_cell = store.alloc_cell(task, integer, 4);
    let wrong = Vc { node: int_cell, view: ViewTag::Type(string) };
    assert_eq!(
        wrong.to_resolved(&store, &reg),
        Settle::Settled(Err(ResolveTypeError::ViewMismatch(integer)))
    );
    // Two tasks whose outputs point at each other.
    let a = store.add_task();
    let b = store.add_task();
    store.set_state(a, TaskState::Done(RawVc::TaskOutput(b)));
    store.set_state(b, TaskState::Done(RawVc::TaskOutput(a)));
    let cyc = Vc { node: RawVc::TaskOutput(a), view: ViewTag::Type(integer) };
    assert_eq!(cyc.to_resolved(&store, &reg), Settle::Settled(Err(ResolveTypeError::OutputCycle)));
    let gone = ResolvedVc { node: no_cell };
    assert_eq!(
        ResolvedVc::try_downcast_type(ResolvedVc { node: Vc { view: ViewTag::Trait(displayable), ..gone.node } }, &store, &reg, integer),
        Err(ResolveTypeError::NoContent)
    );
}

#[test]
fn registry_rejects_open_trait_lists() {
    let mut reg = TypeRegistry::new();
    let base = reg.register_trait(vec![]).unwrap();
    let derived = reg.register_trait(vec![base]).unwrap();
    assert_eq!((base, derived), (0, 1));
    assert_eq!(reg.register_trait(vec![5]), Err(RegistryError::UnknownTrait(5)));
    assert_eq!(reg.register_type(vec![derived], false), Err(RegistryError::MissingSupertrait(base)));
    assert_eq!(reg.register_type(vec![base, 8], false), Err(RegistryError::UnknownTrait(8)));
    let t = reg.register_type(vec![derived, base], false).unwrap();
    assert!(reg.implements(t, base));
    assert!(reg.implements(t, derived));
    assert!(!reg.is_transparent(t));
    assert!(reg.implies(derived, base));
    assert!(!reg.implies(base, derived));
    assert!(reg.has_type(t));
    assert!(!reg.has_type(t + 1));
    assert!(contains_u32(&vec![3, 4], 4));
    assert!(!contains_u32(&vec![], 4));
}

#[test]
fn shapes_closure() {
    let leaf = || Box::new(TypeShape::Leaf);
    let resolved = || Box::new(TypeShape::ResolvedHandle);
    let handle = || Box::new(TypeShape::Handle);
    assert!(is_fully_resolved(&TypeShape::Wrap(leaf())));
    assert!(is_fully_resolved(&TypeShape::Pair(leaf(), resolved())));
    assert!(is_fully_resolved(&TypeShape::Phantom(handle())));
    assert!(!is_fully_resolved(&TypeShape::Handle));
    assert!(!is_fully_resolved(&TypeShape::Wrap(handle())));
    assert!(!is_fully_resolved(&TypeShape::Pair(leaf(), Box::new(TypeShape::Wrap(handle())))));
    assert!(!is_fully_resolved(&TypeShape::Pair(handle(), resolved())));
    assert!(is_fully_resolved(&TypeShape::Wrap(Box::new(TypeShape::Pair(resolved(), leaf())))));
}

#[test]
fn marker_closure_compiles() {
    assert_resolved_value::<u32>();
    assert_resolved_value::<ResolvedVc>();
    assert_resolved_value::<Option<ResolvedVc>>();
    assert_resolved_value::<(u32, String)>();
    assert_resolved_value::<BTreeMap<String, ResolvedVc>>();
    assert_resolved_value::<indexmap::IndexMap<u32, Vec<ResolvedVc>>>();
    assert_resolved_value::<serde_json::Value>();
    assert_resolved_value::<Result<Box<str>, anyhow::Error>>();
    assert_resolved_value::<std::marker::PhantomData<Vc>>();
    assert_resolved_value::<(u8, u8, u8, u8, u8, u8, u8, u8, u8, u8, u8, u8)>();
}

#[test]
fn trace_and_deref_delegate_to_wrapped_handle() {
    let (reg, displayable, _n, integer, _s) = setup();
    let mut store: TaskStore<i64> = TaskStore::new();
    let task = store.add_task();
    store.alloc_cell(task, integer, 0);
    let rv = ResolvedVc::cell(&mut store, &reg, task, integer, 8);
    assert_eq!(rv.node.node, RawVc::TaskCell(task, 1));
    let mut from_resolved = vec![];
    rv.trace_raw_vcs(&mut from_resolved);
    let mut from_handle = vec![];
    rv.as_vc().trace_raw_vcs(&mut from_handle);
    assert_eq!(from_resolved, vec![RawVc::TaskCell(task, 1)]);
    assert_eq!(from_resolved, from_handle);
    let seen: &Vc = &rv;
    assert_eq!(*seen, rv.node);
    assert_eq!(rv.view, ViewTag::Type(integer));
    let up = ResolvedVc::upcast(rv, &reg, displayable);
    assert_ne!(up, rv);
    assert_eq!(store.read_cell(RawVc::TaskCell(task, 0)), Some(&0));
    assert_eq!(store.read_cell_type(rv.node.node), Some(integer));
    assert_eq!(store.read_cell(RawVc::TaskOutput(task)), None);
}
