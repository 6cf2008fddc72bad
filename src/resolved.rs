use vstd::prelude::*;
use crate::handle::{RawVc, ResolveTypeError, Settle, Vc, ViewTag};
use crate::registry::{lemma_implements_through, TypeRegistry};
use crate::store::{TaskState, TaskStore};

verus! {

/// A handle that names a fixed cell whose concrete type is known.
///
/// Copying it copies the address, never the content. Equality and hashing
/// are those of the wrapped handle.
#[derive(Clone, Copy, Debug, PartialEq, Eq, Structural, Hash)]
pub struct ResolvedVc {
    pub node: Vc,
}

/// Concrete type `c` can be seen through `view`.
pub open spec fn admits(reg: TypeRegistry, c: u32, view: ViewTag) -> bool {
    match view {
        ViewTag::Type(t) => c == t,
        ViewTag::Trait(k) => reg.type_implements(c, k),
    }
}

/// A handle seen through `view` may be upcast to trait `k`: this is known
/// from the types alone.
pub open spec fn can_upcast(reg: TypeRegistry, view: ViewTag, k: u32) -> bool {
    match view {
        ViewTag::Type(t) => reg.type_implements(t, k),
        ViewTag::Trait(a) => reg.trait_implies(a, k),
    }
}

/// The registered concrete type of the cell that `raw` names.
pub open spec fn concrete_type<V>(store: TaskStore<V>, reg: TypeRegistry, raw: RawVc) -> Result<
    u32,
    ResolveTypeError,
> {
    match store.cell_type(raw) {
        None => Err(ResolveTypeError::NoContent),
        Some(c) => if reg.is_type(c) {
            Ok(c)
        } else {
            Err(ResolveTypeError::UnknownType(c))
        },
    }
}

/// What resolving `vc` gives.
pub open spec fn resolve_vc_spec<V>(store: TaskStore<V>, reg: TypeRegistry, vc: Vc) -> Settle<
    Result<ResolvedVc, ResolveTypeError>,
> {
    match store.resolve_spec(vc.node) {
        Settle::Waiting(t) => Settle::Waiting(t),
        Settle::Settled(Err(e)) => Settle::Settled(Err(e)),
        Settle::Settled(Ok(cell)) => match concrete_type(store, reg, cell) {
            Err(e) => Settle::Settled(Err(e)),
            Ok(c) => if admits(reg, c, vc.view) {
                Settle::Settled(Ok(ResolvedVc { node: Vc { node: cell, view: vc.view } }))
            } else {
                Settle::Settled(Err(ResolveTypeError::ViewMismatch(c)))
            },
        },
    }
}

/// What a cast to trait `k` gives: a match when the concrete type of the
/// cell implements `k`.
pub open spec fn cast_to_trait_spec<V>(
    store: TaskStore<V>,
    reg: TypeRegistry,
    this: ResolvedVc,
    k: u32,
) -> Result<Option<ResolvedVc>, ResolveTypeError> {
    match concrete_type(store, reg, this.node.node) {
        Err(e) => Err(e),
        Ok(c) => Ok(
            if reg.type_implements(c, k) {
                Some(ResolvedVc { node: Vc { node: this.node.node, view: ViewTag::Trait(k) } })
            } else {
                None
            },
        ),
    }
}

/// What a cast to concrete type `k` gives: a match when the cell holds a `k`.
pub open spec fn cast_to_type_spec<V>(
    store: TaskStore<V>,
    reg: TypeRegistry,
    this: ResolvedVc,
    k: u32,
) -> Result<Option<ResolvedVc>, ResolveTypeError> {
    match concrete_type(store, reg, this.node.node) {
        Err(e) => Err(e),
        Ok(c) => Ok(
            if c == k {
                Some(ResolvedVc { node: Vc { node: this.node.node, view: ViewTag::Type(k) } })
            } else {
                None
            },
        ),
    }
}

impl ResolvedVc {
    /// The handle names a cell that `store` holds, of a type that `reg`
    /// knows and that fits the handle's view.
    pub open spec fn valid<V>(self, store: TaskStore<V>, reg: TypeRegistry) -> bool {
        &&& self.node.node.is_cell()
        &&& concrete_type(store, reg, self.node.node) matches Ok(c)
        &&& admits(reg, c, self.node.view)
    }

    /// Allocates a cell of task `task` holding `inner`, of concrete type
    /// `type_id`, and returns a handle to it seen as that type.
    pub fn cell_private<V>(
        store: &mut TaskStore<V>,
        reg: &TypeRegistry,
        task: u32,
        type_id: u32,
        inner: V,
    ) -> (r: ResolvedVc)
        requires
            old(store).has_task(task),
            old(store).n_cells(task) < u32::MAX,
            reg.is_type(type_id),
        ensures
            r.node == (Vc {
                node: RawVc::TaskCell(task, old(store).n_cells(task) as u32),
                view: ViewTag::Type(type_id),
            }),
            r.valid(*final(store), *reg),
            final(store).tasks@[task as int].cells@.last().content == inner,
            final(store).tasks@.len() == old(store).tasks@.len(),
            final(store).state_of(task) == old(store).state_of(task),
            final(store).n_cells(task) == old(store).n_cells(task) + 1,
            forall|u: int|
                0 <= u < old(store).tasks@.len() && u != task ==> final(store).tasks@[u] == old(
                    store,
                ).tasks@[u],
            old(store).cells_kept(&*final(store)),
    {
        let node = store.alloc_cell(task, type_id, inner);
        ResolvedVc { node: Vc { node, view: ViewTag::Type(type_id) } }
    }

    /// Allocates a cell holding `inner` for a type whose representation is
    /// the value itself, and returns a handle to it seen as that type.
    pub fn cell<V>(
        store: &mut TaskStore<V>,
        reg: &TypeRegistry,
        task: u32,
        type_id: u32,
        inner: V,
    ) -> (r: ResolvedVc)
        requires
            old(store).has_task(task),
            old(store).n_cells(task) < u32::MAX,
            reg.is_type(type_id),
            reg.types@[type_id as int].transparent,
        ensures
            r.node == (Vc {
                node: RawVc::TaskCell(task, old(store).n_cells(task) as u32),
                view: ViewTag::Type(type_id),
            }),
            r.valid(*final(store), *reg),
            final(store).tasks@[task as int].cells@.last().content == inner,
            final(store).tasks@.len() == old(store).tasks@.len(),
            final(store).state_of(task) == old(store).state_of(task),
            final(store).n_cells(task) == old(store).n_cells(task) + 1,
            forall|u: int|
                0 <= u < old(store).tasks@.len() && u != task ==> final(store).tasks@[u] == old(
                    store,
                ).tasks@[u],
            old(store).cells_kept(&*final(store)),
    {
        ResolvedVc::cell_private(store, reg, task, type_id, inner)
    }

    /// Views the handle as trait `k`, which its current view is known to
    /// imply. The cell stays the same.
    pub fn upcast(this: ResolvedVc, reg: &TypeRegistry, k: u32) -> (r: ResolvedVc)
        requires
            can_upcast(*reg, this.node.view, k),
        ensures
            r == upcast_spec(this, k),
    {
        ResolvedVc { node: Vc { node: this.node.node, view: ViewTag::Trait(k) } }
    }

    /// Casts a handle seen as a trait to trait `k`. Gives no match when the
    /// concrete type of the cell does not implement `k`.
    pub fn try_sidecast<V>(this: ResolvedVc, store: &TaskStore<V>, reg: &TypeRegistry, k: u32) -> (r:
        Result<Option<ResolvedVc>, ResolveTypeError>)
        requires
            this.node.view is Trait,
            reg.is_trait(k),
        ensures
            r == cast_to_trait_spec(*store, *reg, this, k),
    {
        match read_concrete_type(store, reg, this.node.node) {
            Err(e) => Err(e),
            Ok(c) => if reg.implements(c, k) {
                Ok(Some(ResolvedVc { node: Vc { node: this.node.node, view: ViewTag::Trait(k) } }))
            } else {
                Ok(None)
            },
        }
    }

    /// Casts a handle seen as a trait to trait `k`, which implies that
    /// trait. Gives no match when the concrete type of the cell does not
    /// implement `k`.
    pub fn try_downcast<V>(this: ResolvedVc, store: &TaskStore<V>, reg: &TypeRegistry, k: u32) -> (r:
        Result<Option<ResolvedVc>, ResolveTypeError>)
        requires
            this.node.view matches ViewTag::Trait(t) && reg.trait_implies(k, t),
        ensures
            r == cast_to_trait_spec(*store, *reg, this, k),
    {
        ResolvedVc::try_sidecast(this, store, reg, k)
    }

    /// Casts a handle seen as a trait to concrete type `k`, which implements
    /// that trait. Gives no match when the cell holds another type.
    pub fn try_downcast_type<V>(
        this: ResolvedVc,
        store: &TaskStore<V>,
        reg: &TypeRegistry,
        k: u32,
    ) -> (r: Result<Option<ResolvedVc>, ResolveTypeError>)
        requires
            this.node.view matches ViewTag::Trait(t) && reg.type_implements(k, t),
        ensures
            r == cast_to_type_spec(*store, *reg, this, k),
    {
        match read_concrete_type(store, reg, this.node.node) {
            Err(e) => Err(e),
            Ok(c) => if c == k {
                Ok(Some(ResolvedVc { node: Vc { node: this.node.node, view: ViewTag::Type(k) } }))
            } else {
                Ok(None)
            },
        }
    }

    /// The wrapped handle.
    pub fn as_vc(&self) -> (r: Vc)
        ensures
            r == self.node,
    {
        self.node
    }
}

/// Reads the registered concrete type of the cell that `raw` names.
fn read_concrete_type<V>(store: &TaskStore<V>, reg: &TypeRegistry, raw: RawVc) -> (r: Result<
    u32,
    ResolveTypeError,
>)
    ensures
        r == concrete_type(*store, *reg, raw),
{
    match store.read_cell_type(raw) {
        None => Err(ResolveTypeError::NoContent),
        Some(c) => if reg.has_type(c) {
            Ok(c)
        } else {
            Err(ResolveTypeError::UnknownType(c))
        },
    }
}

impl Vc {
    /// Resolves the handle: follows task outputs to a fixed cell, then checks
    /// that the cell's concrete type is registered and fits the view.
    pub fn to_resolved<V>(self, store: &TaskStore<V>, reg: &TypeRegistry) -> (r: Settle<
        Result<ResolvedVc, ResolveTypeError>,
    >)
        ensures
            r == resolve_vc_spec(*store, *reg, self),
            r matches Settle::Settled(Ok(rv)) ==> rv.valid(*store, *reg) && rv.node.view
                == self.view,
    {
        match store.resolve_raw(self.node) {
            Settle::Waiting(t) => Settle::Waiting(t),
            Settle::Settled(Err(e)) => Settle::Settled(Err(e)),
            Settle::Settled(Ok(cell)) => match read_concrete_type(store, reg, cell) {
                Err(e) => Settle::Settled(Err(e)),
                Ok(c) => {
                    let fits = match self.view {
                        ViewTag::Type(t) => c == t,
                        ViewTag::Trait(k) => reg.implements(c, k),
                    };
                    if fits {
                        Settle::Settled(Ok(ResolvedVc { node: Vc { node: cell, view: self.view } }))
                    } else {
                        Settle::Settled(Err(ResolveTypeError::ViewMismatch(c)))
                    }
                },
            },
        }
    }

    /// Resolves the handle, then casts it to trait `k`.
    pub fn try_resolve_sidecast<V>(self, store: &TaskStore<V>, reg: &TypeRegistry, k: u32) -> (r:
        Settle<Result<Option<ResolvedVc>, ResolveTypeError>>)
        requires
            self.view is Trait,
            reg.is_trait(k),
        ensures
            r == (match resolve_vc_spec(*store, *reg, self) {
                Settle::Waiting(t) => Settle::Waiting(t),
                Settle::Settled(Err(e)) => Settle::Settled(Err(e)),
                Settle::Settled(Ok(rv)) => Settle::Settled(cast_to_trait_spec(*store, *reg, rv, k)),
            }),
    {
        match self.to_resolved(store, reg) {
            Settle::Waiting(t) => Settle::Waiting(t),
            Settle::Settled(Err(e)) => Settle::Settled(Err(e)),
            Settle::Settled(Ok(rv)) => Settle::Settled(ResolvedVc::try_sidecast(rv, store, reg, k)),
        }
    }

    /// Resolves the handle, then casts it to concrete type `k`.
    pub fn try_resolve_downcast_type<V>(
        self,
        store: &TaskStore<V>,
        reg: &TypeRegistry,
        k: u32,
    ) -> (r: Settle<Result<Option<ResolvedVc>, ResolveTypeError>>)
        requires
            self.view matches ViewTag::Trait(t) && reg.type_implements(k, t),
        ensures
            r == (match resolve_vc_spec(*store, *reg, self) {
                Settle::Waiting(t) => Settle::Waiting(t),
                Settle::Settled(Err(e)) => Settle::Settled(Err(e)),
                Settle::Settled(Ok(rv)) => Settle::Settled(cast_to_type_spec(*store, *reg, rv, k)),
            }),
    {
        match self.to_resolved(store, reg) {
            Settle::Waiting(t) => Settle::Waiting(t),
            Settle::Settled(Err(e)) => Settle::Settled(Err(e)),
            Settle::Settled(Ok(rv)) => Settle::Settled(
                ResolvedVc::try_downcast_type(rv, store, reg, k),
            ),
        }
    }
}

impl ResolvedVc {
    /// Records the address of the wrapped handle, exactly as the handle
    /// itself would.
    pub fn trace_raw_vcs(&self, trace: &mut Vec<RawVc>)
        ensures
            final(trace)@ == old(trace)@.push(self.node.node),
    {
        self.node.trace_raw_vcs(trace);
    }
}

impl std::ops::Deref for ResolvedVc {
    type Target = Vc;

    fn deref(&self) -> (r: &Vc)
        ensures
            *r == self.node,
    {
        &self.node
    }
}

/// The handle that an upcast to trait `k` gives.
pub open spec fn upcast_spec(this: ResolvedVc, k: u32) -> ResolvedVc {
    ResolvedVc { node: Vc { node: this.node.node, view: ViewTag::Trait(k) } }
}

/// Two resolved handles are equal exactly when the handles they wrap are.
pub proof fn lemma_eq_is_wrapped_eq(a: ResolvedVc, b: ResolvedVc)
    ensures
        (a == b) <==> (a.node == b.node),
{
}

/// Resolving a handle keeps its view, and a handle that already names a cell
/// resolves to a wrapper of that very handle.
pub proof fn lemma_resolution_keeps_identity<V>(store: TaskStore<V>, reg: TypeRegistry, h: Vc)
    requires
        resolve_vc_spec(store, reg, h) is Settled,
    ensures
        resolve_vc_spec(store, reg, h) matches Settle::Settled(Ok(rv)) ==> {
            &&& rv.node.view == h.view
            &&& h.node.is_cell() ==> rv.node == h
        },
{
}

/// Resolving a handle that is already resolved gives that same handle back,
/// without waiting and without failing.
pub proof fn lemma_resolve_idempotent<V>(store: TaskStore<V>, reg: TypeRegistry, rv: ResolvedVc)
    requires
        rv.valid(store, reg),
    ensures
        resolve_vc_spec(store, reg, rv.node) == Settle::Settled(Ok::<ResolvedVc, ResolveTypeError>(rv)),
{
}

/// A valid handle stays valid while the store only gains tasks and cells
/// and keeps those it has.
pub proof fn lemma_valid_kept<V>(
    before: TaskStore<V>,
    after: TaskStore<V>,
    reg: TypeRegistry,
    rv: ResolvedVc,
)
    requires
        rv.valid(before, reg),
        before.cells_kept(&after),
    ensures
        rv.valid(after, reg),
{
    assert(before.cell_type(rv.node.node) is Some);
}

/// In a well-formed registry an upcast keeps a handle valid.
pub proof fn lemma_upcast_keeps_valid<V>(store: TaskStore<V>, reg: TypeRegistry, x: ResolvedVc, k: u32)
    requires
        reg.wf(),
        x.valid(store, reg),
        can_upcast(reg, x.node.view, k),
    ensures
        upcast_spec(x, k).valid(store, reg),
{
    let c = concrete_type(store, reg, x.node.node)->Ok_0;
    if let ViewTag::Trait(a) = x.node.view {
        lemma_implements_through(reg, c, a, k);
    }
}

/// Upcasting a handle of concrete type `t` to a trait and casting back to
/// `t` gives the handle back.
pub proof fn lemma_upcast_round_trip<V>(store: TaskStore<V>, reg: TypeRegistry, x: ResolvedVc, k: u32)
    requires
        reg.wf(),
        x.valid(store, reg),
        x.node.view is Type,
        can_upcast(reg, x.node.view, k),
    ensures
        upcast_spec(x, k).valid(store, reg),
        cast_to_type_spec(store, reg, upcast_spec(x, k), x.node.view->Type_0) == Ok::<
            Option<ResolvedVc>,
            ResolveTypeError,
        >(Some(x)),
{
    lemma_upcast_keeps_valid(store, reg, x, k);
}

/// On a valid handle whose cell holds concrete type `c`, a cast to `c`
/// matches, a cast to any other type `d` gives no match, and a cast to trait
/// `k` matches exactly when `c` implements `k`; none of them fails.
pub proof fn lemma_cast_correct<V>(
    store: TaskStore<V>,
    reg: TypeRegistry,
    x: ResolvedVc,
    c: u32,
    d: u32,
    k: u32,
)
    requires
        x.valid(store, reg),
        store.cell_type(x.node.node) == Some(c),
        d != c,
    ensures
        cast_to_type_spec(store, reg, x, c) == Ok::<Option<ResolvedVc>, ResolveTypeError>(
            Some(ResolvedVc { node: Vc { node: x.node.node, view: ViewTag::Type(c) } }),
        ),
        cast_to_type_spec(store, reg, x, d) == Ok::<Option<ResolvedVc>, ResolveTypeError>(None),
        cast_to_trait_spec(store, reg, x, k) is Ok,
        cast_to_trait_spec(store, reg, x, k)->Ok_0 is Some <==> reg.type_implements(c, k),
{
}

/// A handle to the output of a failed task resolves to a failure, never to a
/// handle or to no match.
pub proof fn lemma_failed_task_fails<V>(store: TaskStore<V>, reg: TypeRegistry, h: Vc, t: u32)
    requires
        h.node == RawVc::TaskOutput(t),
        store.has_task(t),
        store.state_of(t) == TaskState::Failed,
    ensures
        resolve_vc_spec(store, reg, h) == Settle::Settled(
            Err::<ResolvedVc, ResolveTypeError>(ResolveTypeError::TaskFailed(t)),
        ),
{
}

/// A handle to the output of a task that has not finished waits for that
/// task.
pub proof fn lemma_pending_task_waits<V>(store: TaskStore<V>, reg: TypeRegistry, h: Vc, t: u32)
    requires
        h.node == RawVc::TaskOutput(t),
        store.has_task(t),
        store.state_of(t) == TaskState::Pending,
    ensures
        resolve_vc_spec(store, reg, h) == Settle::<Result<ResolvedVc, ResolveTypeError>>::Waiting(t),
{
}

} // verus!
