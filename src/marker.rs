use vstd::prelude::*;
use crate::resolved::ResolvedVc;

verus! {

/// Declares `serde_json::Value`, so that JSON values, which hold no
/// handle, can be marked.
#[verifier::external_type_specification]
#[verifier::external_body]
pub struct ExJsonValue(serde_json::Value);

/// Declares `anyhow::Error`, so that errors, which hold no handle, can be
/// marked.
#[verifier::external_type_specification]
#[verifier::external_body]
pub struct ExAnyhowError(anyhow::Error);

/// Declares `indexmap::IndexMap`, so that insertion-ordered maps can be
/// marked when their keys and values are.
#[verifier::external_type_specification]
#[verifier::external_body]
#[verifier::reject_recursive_types(K)]
#[verifier::reject_recursive_types(V)]
#[verifier::reject_recursive_types(S)]
pub struct ExIndexMap<K, V, S>(indexmap::IndexMap<K, V, S>);

/// Declares `indexmap::IndexSet`, so that insertion-ordered sets can be
/// marked when their elements are.
#[verifier::external_type_specification]
#[verifier::external_body]
#[verifier::reject_recursive_types(T)]
#[verifier::reject_recursive_types(S)]
pub struct ExIndexSet<T, S>(indexmap::IndexSet<T, S>);

/// Declares `std::path::PathBuf`, so that paths can be marked.
#[verifier::external_type_specification]
#[verifier::external_body]
pub struct ExPathBuf(std::path::PathBuf);

/// Declares `std::path::Path`, so that borrowed paths can be marked.
#[verifier::external_type_specification]
#[verifier::external_body]
pub struct ExPath(std::path::Path);

/// Declares `std::sync::Mutex`, so that a lock can be marked when what it
/// guards is.
#[verifier::external_type_specification]
#[verifier::external_body]
#[verifier::reject_recursive_types(T)]
pub struct ExMutex<T: ?Sized>(std::sync::Mutex<T>);

/// Declares `std::cell::RefCell`, so that a cell can be marked when what
/// it holds is.
#[verifier::external_type_specification]
#[verifier::external_body]
#[verifier::reject_recursive_types(T)]
pub struct ExRefCell<T: ?Sized>(std::cell::RefCell<T>);

/// A type through which no plain, possibly unresolved, handle can be
/// reached. It may hold resolved handles.
///
/// Leaf types hold it outright; composite types hold it when each type they
/// are built from does. A plain [`crate::handle::Vc`] does not hold it, nor
/// does any type that contains one.
pub trait ResolvedValue {}

impl ResolvedValue for ResolvedVc {}

impl ResolvedValue for i8 {}
impl ResolvedValue for u8 {}
impl ResolvedValue for i16 {}
impl ResolvedValue for u16 {}
impl ResolvedValue for i32 {}
impl ResolvedValue for u32 {}
impl ResolvedValue for i64 {}
impl ResolvedValue for u64 {}
impl ResolvedValue for usize {}
impl ResolvedValue for char {}
impl ResolvedValue for bool {}
impl ResolvedValue for () {}
impl ResolvedValue for str {}
impl ResolvedValue for String {}
impl ResolvedValue for std::time::Duration {}
impl ResolvedValue for std::path::Path {}
impl ResolvedValue for std::path::PathBuf {}
impl ResolvedValue for std::sync::atomic::AtomicI8 {}
impl ResolvedValue for std::sync::atomic::AtomicU8 {}
impl ResolvedValue for std::sync::atomic::AtomicI16 {}
impl ResolvedValue for std::sync::atomic::AtomicU16 {}
impl ResolvedValue for std::sync::atomic::AtomicI32 {}
impl ResolvedValue for std::sync::atomic::AtomicU32 {}
impl ResolvedValue for std::sync::atomic::AtomicI64 {}
impl ResolvedValue for std::sync::atomic::AtomicU64 {}
impl ResolvedValue for std::sync::atomic::AtomicBool {}
impl ResolvedValue for std::sync::atomic::AtomicUsize {}
impl ResolvedValue for serde_json::Value {}
impl ResolvedValue for anyhow::Error {}

impl<T: ResolvedValue> ResolvedValue for Option<T> {}
impl<T: ResolvedValue> ResolvedValue for Vec<T> {}
impl<T: ResolvedValue, const N: usize> ResolvedValue for [T; N] {}
impl<T: ResolvedValue> ResolvedValue for [T] {}
impl<T: ResolvedValue, E: ResolvedValue> ResolvedValue for Result<T, E> {}
impl<T: ResolvedValue + ?Sized> ResolvedValue for Box<T> {}
impl<T: ResolvedValue + ?Sized> ResolvedValue for std::sync::Arc<T> {}
impl<T: ResolvedValue + ?Sized> ResolvedValue for std::rc::Rc<T> {}
impl<T: ResolvedValue + ?Sized> ResolvedValue for std::sync::Mutex<T> {}
impl<T: ResolvedValue + ?Sized> ResolvedValue for std::cell::RefCell<T> {}
impl<T: ?Sized> ResolvedValue for std::marker::PhantomData<T> {}
impl<'a, T: ResolvedValue + ?Sized> ResolvedValue for &'a T {}
impl<'a, T: ResolvedValue + ?Sized> ResolvedValue for &'a mut T {}
impl<T: ResolvedValue, S> ResolvedValue for std::collections::HashSet<T, S> {}
impl<T: ResolvedValue> ResolvedValue for std::collections::BTreeSet<T> {}
impl<T: ResolvedValue, S> ResolvedValue for indexmap::IndexSet<T, S> {}
impl<K: ResolvedValue, V: ResolvedValue, S> ResolvedValue for std::collections::HashMap<K, V, S> {}
impl<K: ResolvedValue, V: ResolvedValue> ResolvedValue for std::collections::BTreeMap<K, V> {}
impl<K: ResolvedValue, V: ResolvedValue, S> ResolvedValue for indexmap::IndexMap<K, V, S> {}

impl<A: ResolvedValue> ResolvedValue for (A,) {}
impl<A: ResolvedValue, B: ResolvedValue> ResolvedValue for (A, B) {}
impl<A: ResolvedValue, B: ResolvedValue, C: ResolvedValue> ResolvedValue for (A, B, C) {}
impl<
    A: ResolvedValue,
    B: ResolvedValue,
    C: ResolvedValue,
    D: ResolvedValue,
> ResolvedValue for (A, B, C, D) {}
impl<
    A: ResolvedValue,
    B: ResolvedValue,
    C: ResolvedValue,
    D: ResolvedValue,
    E: ResolvedValue,
> ResolvedValue for (A, B, C, D, E) {}
impl<
    A: ResolvedValue,
    B: ResolvedValue,
    C: ResolvedValue,
    D: ResolvedValue,
    E: ResolvedValue,
    F: ResolvedValue,
> ResolvedValue for (A, B, C, D, E, F) {}
impl<
    A: ResolvedValue,
    B: ResolvedValue,
    C: ResolvedValue,
    D: ResolvedValue,
    E: ResolvedValue,
    F: ResolvedValue,
    G: ResolvedValue,
> ResolvedValue for (A, B, C, D, E, F, G) {}
impl<
    A: ResolvedValue,
    B: ResolvedValue,
    C: ResolvedValue,
    D: ResolvedValue,
    E: ResolvedValue,
    F: ResolvedValue,
    G: ResolvedValue,
    H: ResolvedValue,
> ResolvedValue for (A, B, C, D, E, F, G, H) {}
impl<
    A: ResolvedValue,
    B: ResolvedValue,
    C: ResolvedValue,
    D: ResolvedValue,
    E: ResolvedValue,
    F: ResolvedValue,
    G: ResolvedValue,
    H: ResolvedValue,
    I: ResolvedValue,
> ResolvedValue for (A, B, C, D, E, F, G, H, I) {}
impl<
    A: ResolvedValue,
    B: ResolvedValue,
    C: ResolvedValue,
    D: ResolvedValue,
    E: ResolvedValue,
    F: ResolvedValue,
    G: ResolvedValue,
    H: ResolvedValue,
    I: ResolvedValue,
    J: ResolvedValue,
> ResolvedValue for (A, B, C, D, E, F, G, H, I, J) {}
impl<
    A: ResolvedValue,
    B: ResolvedValue,
    C: ResolvedValue,
    D: ResolvedValue,
    E: ResolvedValue,
    F: ResolvedValue,
    G: ResolvedValue,
    H: ResolvedValue,
    I: ResolvedValue,
    J: ResolvedValue,
    K: ResolvedValue,
> ResolvedValue for (A, B, C, D, E, F, G, H, I, J, K) {}
impl<
    A: ResolvedValue,
    B: ResolvedValue,
    C: ResolvedValue,
    D: ResolvedValue,
    E: ResolvedValue,
    F: ResolvedValue,
    G: ResolvedValue,
    H: ResolvedValue,
    I: ResolvedValue,
    J: ResolvedValue,
    K: ResolvedValue,
    L: ResolvedValue,
> ResolvedValue for (A, B, C, D, E, F, G, H, I, J, K, L) {}

} // verus!
