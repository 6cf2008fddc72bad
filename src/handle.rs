use vstd::prelude::*;

verus! {

/// The address a handle points at: either the output of a task, which is
/// known only once the task has finished, or a fixed cell of a task.
#[derive(Clone, Copy, Debug, PartialEq, Eq, Structural, Hash)]
pub enum RawVc {
    TaskOutput(u32),
    TaskCell(u32, u32),
}

/// The type through which a handle is seen: a concrete value type or a value
/// trait, each by its index in the type registry.
#[derive(Clone, Copy, Debug, PartialEq, Eq, Structural, Hash)]
pub enum ViewTag {
    Type(u32),
    Trait(u32),
}

/// A value handle, which may be unresolved.
///
/// Two handles are equal when they point at the same place through the same
/// view.
#[derive(Clone, Copy, Debug, PartialEq, Eq, Structural, Hash)]
pub struct Vc {
    pub node: RawVc,
    pub view: ViewTag,
}

/// Why a handle could not be resolved or its cell's type not be read.
#[derive(Clone, Copy, Debug, PartialEq, Eq, Structural)]
pub enum ResolveTypeError {
    /// The producing task failed or was cancelled.
    TaskFailed(u32),
    /// The handle names a task or a cell that the store does not hold.
    NoContent,
    /// Following task outputs went round more often than there are tasks.
    OutputCycle,
    /// The cell holds a type that the registry does not know.
    UnknownType(u32),
    /// The cell's concrete type does not fit the handle's view.
    ViewMismatch(u32),
}

/// The state of a cast or a resolution: settled with a value, or waiting for
/// a task to finish.
#[derive(Clone, Copy, Debug, PartialEq, Eq, Structural)]
pub enum Settle<T> {
    Settled(T),
    Waiting(u32),
}

impl RawVc {
    pub open spec fn is_cell(self) -> bool {
        self is TaskCell
    }
}

impl Vc {
    /// Records the address this handle points at, for dependency tracking.
    pub fn trace_raw_vcs(&self, trace: &mut Vec<RawVc>)
        ensures
            final(trace)@ == old(trace)@.push(self.node),
    {
        trace.push(self.node);
    }
}

} // verus!
