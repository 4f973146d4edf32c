//! The registry of running alert tasks: one cancellable handle per alert id.

use std::collections::HashMap;

use vstd::prelude::*;

verus! {

broadcast use vstd::std_specs::hash::group_hash_axioms;

/// A change of one row of the alerts table, as the change feed reports it.
#[derive(Debug, PartialEq, Eq, Clone, Copy, Structural)]
pub enum CdcKind {
    Update,
    Insert,
    Delete,
}

/// The running alert tasks, by alert id. `H` is the handle that cancels a task.
pub struct TaskRegistry<H> {
    tasks: HashMap<i64, H>,
}

/// The entry under `id` in `m`, if any.
pub open spec fn entry<H>(m: Map<i64, H>, id: i64) -> Option<H> {
    if m.contains_key(id) {
        Some(m[id])
    } else {
        None
    }
}

/// The registry after a change of kind `kind` to alert `id`, with `fresh`
/// the handle of the task started for it: insert and update leave `fresh`
/// under the id, delete leaves nothing there.
pub open spec fn after_change<H>(m: Map<i64, H>, kind: CdcKind, id: i64, fresh: Option<H>) -> Map<
    i64,
    H,
> {
    match fresh {
        Some(h) => if kind == CdcKind::Delete {
            m.remove(id)
        } else {
            m.insert(id, h)
        },
        None => m.remove(id),
    }
}

impl<H> View for TaskRegistry<H> {
    type V = Map<i64, H>;

    closed spec fn view(&self) -> Map<i64, H> {
        self.tasks@
    }
}

impl<H> TaskRegistry<H> {
    /// An empty registry.
    pub fn new() -> (r: Self)
        ensures
            r@ == Map::<i64, H>::empty(),
    {
        TaskRegistry { tasks: HashMap::new() }
    }

    /// Records `handle` as the task of alert `id`. Returns the handle it
    /// replaces, which the caller cancels.
    pub fn start(&mut self, id: i64, handle: H) -> (prev: Option<H>)
        ensures
            final(self)@ == old(self)@.insert(id, handle),
            prev == entry(old(self)@, id),
    {
        self.tasks.insert(id, handle)
    }

    /// Forgets the task of alert `id`. Returns its handle, which the caller
    /// cancels; nothing happens when there is none.
    pub fn stop(&mut self, id: i64) -> (prev: Option<H>)
        ensures
            final(self)@ == old(self)@.remove(id),
            prev == entry(old(self)@, id),
    {
        self.tasks.remove(&id)
    }

    /// Whether alert `id` has a task.
    pub fn is_running(&self, id: i64) -> (r: bool)
        ensures
            r == self@.contains_key(id),
    {
        self.tasks.contains_key(&id)
    }

    /// Applies a change of alert `id` reported by the change feed: its old
    /// task, if any, is stopped and returned for cancelling; on insert and
    /// update the new task `fresh` takes its place under the same id.
    pub fn apply_change(&mut self, kind: CdcKind, id: i64, fresh: Option<H>) -> (cancel: Option<H>)
        ensures
            final(self)@ == after_change(old(self)@, kind, id, fresh),
            cancel == entry(old(self)@, id),
    {
        let cancel = self.stop(id);
        match fresh {
            Some(h) => {
                if kind != CdcKind::Delete {
                    self.start(id, h);
                }
            },
            None => {},
        }
        proof {
            if fresh is Some && kind != CdcKind::Delete {
                assert(old(self)@.remove(id).insert(id, fresh->Some_0) =~= old(self)@.insert(
                    id,
                    fresh->Some_0,
                ));
            }
        }
        cancel
    }
}

} // verus!
