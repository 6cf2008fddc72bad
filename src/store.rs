use vstd::prelude::*;
use crate::handle::{RawVc, ResolveTypeError, Settle};

verus! {

/// Where a task stands.
#[derive(Clone, Copy, Debug, PartialEq, Eq, Structural)]
pub enum TaskState {
    /// Still running: its output is not known yet.
    Pending,
    /// Finished, with the handle it returned as its output.
    Done(RawVc),
    /// Failed or cancelled.
    Failed,
}

/// One result cell: the concrete type of its content, and the content.
pub struct CellEntry<V> {
    pub type_id: u32,
    pub content: V,
}

/// A task and the cells it has filled, in order of allocation.
pub struct Task<V> {
    pub state: TaskState,
    pub cells: Vec<CellEntry<V>>,
}

/// The tasks and their cells, keyed by task index and slot.
pub struct TaskStore<V> {
    pub tasks: Vec<Task<V>>,
}

impl<V> TaskStore<V> {
    pub open spec fn has_task(&self, t: u32) -> bool {
        (t as int) < self.tasks@.len()
    }

    pub open spec fn state_of(&self, t: u32) -> TaskState {
        self.tasks@[t as int].state
    }

    pub open spec fn n_cells(&self, t: u32) -> int {
        self.tasks@[t as int].cells@.len() as int
    }

    /// The concrete type of the cell that `raw` names, if it names a cell
    /// that the store holds.
    pub open spec fn cell_type(&self, raw: RawVc) -> Option<u32> {
        match raw {
            RawVc::TaskCell(t, s) => if self.has_task(t) && (s as int) < self.n_cells(t) {
                Some(self.tasks@[t as int].cells@[s as int].type_id)
            } else {
                None
            },
            RawVc::TaskOutput(_) => None,
        }
    }

    /// Every cell of `self` is still in `next`, with the same type.
    pub open spec fn cells_kept(&self, next: &TaskStore<V>) -> bool {
        &&& self.tasks@.len() <= next.tasks@.len()
        &&& forall|raw: RawVc| #[trigger]
            self.cell_type(raw) is Some ==> next.cell_type(raw) == self.cell_type(raw)
    }

    /// Follows task outputs from `raw` for at most `fuel` finished tasks,
    /// until it reaches a cell, a task that has not finished, or a failure.
    pub open spec fn follow(&self, raw: RawVc, fuel: nat) -> Settle<Result<RawVc, ResolveTypeError>>
        decreases fuel,
    {
        match raw {
            RawVc::TaskCell(_, _) => Settle::Settled(Ok(raw)),
            RawVc::TaskOutput(t) => if !self.has_task(t) {
                Settle::Settled(Err(ResolveTypeError::NoContent))
            } else {
                match self.state_of(t) {
                    TaskState::Pending => Settle::Waiting(t),
                    TaskState::Failed => Settle::Settled(Err(ResolveTypeError::TaskFailed(t))),
                    TaskState::Done(out) => if fuel == 0 {
                        Settle::Settled(Err(ResolveTypeError::OutputCycle))
                    } else {
                        self.follow(out, (fuel - 1) as nat)
                    },
                }
            },
        }
    }

    /// Where `raw` leads: a chain of outputs longer than the number of tasks
    /// goes round a cycle.
    pub open spec fn resolve_spec(&self, raw: RawVc) -> Settle<Result<RawVc, ResolveTypeError>> {
        self.follow(raw, self.tasks@.len())
    }

    pub fn new() -> (r: TaskStore<V>)
        ensures
            r.tasks@.len() == 0,
    {
        TaskStore { tasks: Vec::new() }
    }

    /// Adds a pending task with no cells, and returns its index.
    pub fn add_task(&mut self) -> (r: u32)
        requires
            old(self).tasks@.len() < u32::MAX,
        ensures
            r as int == old(self).tasks@.len(),
            final(self).tasks@.len() == old(self).tasks@.len() + 1,
            forall|t: int| 0 <= t < r ==> final(self).tasks@[t] == old(self).tasks@[t],
            final(self).state_of(r) == TaskState::Pending,
            final(self).n_cells(r) == 0,
            old(self).cells_kept(&*final(self)),
    {
        let r = self.tasks.len() as u32;
        self.tasks.push(Task { state: TaskState::Pending, cells: Vec::new() });
        r
    }

    /// Sets the state of task `t`; its cells stay.
    pub fn set_state(&mut self, t: u32, state: TaskState)
        requires
            old(self).has_task(t),
        ensures
            final(self).tasks@.len() == old(self).tasks@.len(),
            forall|u: int|
                0 <= u < old(self).tasks@.len() && u != t ==> final(self).tasks@[u] == old(
                    self,
                ).tasks@[u],
            final(self).state_of(t) == state,
            final(self).tasks@[t as int].cells == old(self).tasks@[t as int].cells,
            old(self).cells_kept(&*final(self)),
            final(self).cells_kept(&*old(self)),
    {
        self.tasks[t as usize].state = state;
    }

    /// Allocates a new cell of task `t` holding `content` of concrete type
    /// `type_id`, and returns its address.
    pub fn alloc_cell(&mut self, t: u32, type_id: u32, content: V) -> (r: RawVc)
        requires
            old(self).has_task(t),
            old(self).n_cells(t) < u32::MAX,
        ensures
            r == RawVc::TaskCell(t, old(self).n_cells(t) as u32),
            final(self).cell_type(r) == Some(type_id),
            final(self).tasks@.len() == old(self).tasks@.len(),
            final(self).state_of(t) == old(self).state_of(t),
            final(self).n_cells(t) == old(self).n_cells(t) + 1,
            final(self).tasks@[t as int].cells@.last().content == content,
            final(self).tasks@[t as int].cells@.drop_last() == old(self).tasks@[t as int].cells@,
            forall|u: int|
                0 <= u < old(self).tasks@.len() && u != t ==> final(self).tasks@[u] == old(
                    self,
                ).tasks@[u],
            old(self).cells_kept(&*final(self)),
    {
        let slot = self.tasks[t as usize].cells.len() as u32;
        self.tasks[t as usize].cells.push(CellEntry { type_id, content });
        assert(self.tasks@[t as int].cells@.drop_last() =~= old(self).tasks@[t as int].cells@);
        RawVc::TaskCell(t, slot)
    }

    /// The concrete type of the cell that `raw` names.
    pub fn read_cell_type(&self, raw: RawVc) -> (r: Option<u32>)
        ensures
            r == self.cell_type(raw),
    {
        match raw {
            RawVc::TaskCell(t, s) => {
                if (t as usize) < self.tasks.len() && (s as usize)
                    < self.tasks[t as usize].cells.len() {
                    Some(self.tasks[t as usize].cells[s as usize].type_id)
                } else {
                    None
                }
            },
            RawVc::TaskOutput(_) => None,
        }
    }

    /// The content of the cell that `raw` names.
    pub fn read_cell(&self, raw: RawVc) -> (r: Option<&V>)
        ensures
            r is Some <==> self.cell_type(raw) is Some,
            r matches Some(v) ==> raw matches RawVc::TaskCell(t, s) && *v == self.tasks@[t as int].cells@[s as int].content,
    {
        match raw {
            RawVc::TaskCell(t, s) => {
                if (t as usize) < self.tasks.len() && (s as usize)
                    < self.tasks[t as usize].cells.len() {
                    Some(&self.tasks[t as usize].cells[s as usize].content)
                } else {
                    None
                }
            },
            RawVc::TaskOutput(_) => None,
        }
    }

    /// Follows task outputs from `raw` to a cell, or to the task that must
    /// finish first, or to the failure that stops it.
    pub fn resolve_raw(&self, raw: RawVc) -> (r: Settle<Result<RawVc, ResolveTypeError>>)
        ensures
            r == self.resolve_spec(raw),
            r matches Settle::Settled(Ok(c)) ==> c.is_cell(),
    {
        let mut cur = raw;
        let mut fuel: usize = self.tasks.len();
        loop
            invariant
                fuel <= self.tasks@.len(),
                self.follow(cur, fuel as nat) == self.resolve_spec(raw),
            decreases fuel,
        {
            match cur {
                RawVc::TaskCell(_, _) => {
                    return Settle::Settled(Ok(cur));
                },
                RawVc::TaskOutput(t) => {
                    if t as usize >= self.tasks.len() {
                        return Settle::Settled(Err(ResolveTypeError::NoContent));
                    }
                    match self.tasks[t as usize].state {
                        TaskState::Pending => {
                            return Settle::Waiting(t);
                        },
                        TaskState::Failed => {
                            return Settle::Settled(Err(ResolveTypeError::TaskFailed(t)));
                        },
                        TaskState::Done(out) => {
                            if fuel == 0 {
                                return Settle::Settled(Err(ResolveTypeError::OutputCycle));
                            }
                            cur = out;
                            fuel = fuel - 1;
                        },
                    }
                },
            }
        }
    }
}

} // verus!
