//! The storage state the domain operations act on, and the operations
//! themselves: insert, list, toggle, delete.
//!
//! Storage assigns ids, starting at 1 and strictly increasing, so the rows
//! are kept in id order and ids never repeat.  Toggling or deleting an id
//! that is not present fails with `OperationFailed` (a deliberate, fixed
//! policy: a missing row is reported, never silently ignored).  Inserting
//! when the id space is exhausted fails the same way.

use vstd::prelude::*;

use crate::messages::{task_models, Failure, NewTask, Task, TaskModel};

verus! {

/// The mathematical state of storage: the task rows in id order, and the
/// id the next insert will take.
#[verifier::ext_equal]
pub ghost struct StoreModel {
    pub tasks: Seq<TaskModel>,
    pub next_id: int,
}

/// Well-formedness of a storage state: ids start at 1, are strictly
/// increasing along the rows (hence distinct and sorted), and stay below
/// the id the next insert will take.
pub open spec fn store_wf(m: StoreModel) -> bool {
    &&& 1 <= m.next_id <= i32::MAX
    &&& forall|i: int| 0 <= i < m.tasks.len() ==> 1 <= (#[trigger] m.tasks[i]).id < m.next_id
    &&& forall|i: int, j: int|
        0 <= i < j < m.tasks.len() ==> (#[trigger] m.tasks[i]).id < (#[trigger] m.tasks[j]).id
}

/// Whether some row carries the given id.
pub open spec fn has_task(tasks: Seq<TaskModel>, id: int) -> bool {
    exists|i: int| 0 <= i < tasks.len() && (#[trigger] tasks[i]).id == id
}

/// The same task with its completion flag flipped.
pub open spec fn toggled(t: TaskModel) -> TaskModel {
    TaskModel { completed: !t.completed, ..t }
}

/// What a successful insert appends: a fresh, uncompleted row under the
/// next id.
pub open spec fn inserted_task(m: StoreModel, description: Seq<char>) -> TaskModel {
    TaskModel { id: m.next_id, description, completed: false }
}

/// The storage state.  In the deployed system this state lives behind the
/// connections of the resource pool; here it is held directly so the
/// operations can be verified against it.
pub struct TaskStore {
    tasks: Vec<Task>,
    next_id: i32,
}

impl View for TaskStore {
    type V = StoreModel;

    closed spec fn view(&self) -> StoreModel {
        StoreModel { tasks: task_models(self.tasks@), next_id: self.next_id as int }
    }
}

impl TaskStore {
    /// Well-formedness of this storage state.
    pub open spec fn wf(&self) -> bool {
        store_wf(self@)
    }

    /// Empty storage; the first insert takes id 1.
    pub fn new() -> (r: Self)
        ensures
            r.wf(),
            r@.tasks == Seq::<TaskModel>::empty(),
            r@.next_id == 1,
    {
        let r = TaskStore { tasks: Vec::new(), next_id: 1 };
        proof {
            assert(r@.tasks =~= Seq::<TaskModel>::empty());
        }
        r
    }

    /// Insert a new row under the next id.  Fails only when the id space
    /// is exhausted, which storage reports as an operation failure.
    pub fn insert(&mut self, task: NewTask) -> (r: Result<(), Failure>)
        requires
            old(self).wf(),
        ensures
            final(self).wf(),
            old(self)@.next_id < i32::MAX ==> (r matches Ok(u) && final(self)@.tasks == old(
                self,
            )@.tasks.push(inserted_task(old(self)@, task.description@)) && final(self)@.next_id
                == old(self)@.next_id + 1),
            old(self)@.next_id == i32::MAX ==> (r matches Err(f) && f == Failure::OperationFailed
                && final(self)@ == old(self)@),
    {
        if self.next_id == i32::MAX {
            return Err(Failure::OperationFailed);
        }
        let id = self.next_id;
        self.next_id = id + 1;
        self.tasks.push(Task { id, description: task.description, completed: false });
        proof {
            assert(self@.tasks =~= old(self)@.tasks.push(
                inserted_task(old(self)@, task.description@),
            ));
        }
        Ok(())
    }

    /// Every row, oldest (lowest id) first.
    pub fn all(&self) -> (r: Vec<Task>)
        ensures
            task_models(r@) == self@.tasks,
    {
        let mut out: Vec<Task> = Vec::new();
        let mut i: usize = 0;
        while i < self.tasks.len()
            invariant
                i <= self.tasks.len(),
                out@.len() == i,
                forall|k: int| 0 <= k < i ==> (#[trigger] out@[k])@ == self@.tasks[k],
            decreases self.tasks.len() - i,
        {
            let t = &self.tasks[i];
            out.push(Task { id: t.id, description: t.description.clone(), completed: t.completed });
            i += 1;
        }
        proof {
            assert(task_models(out@) =~= self@.tasks);
        }
        out
    }

    /// Flip the completion flag of the row with the given id; report an
    /// operation failure when no row carries it.
    pub fn toggle_with_id(&mut self, id: i32) -> (r: Result<(), Failure>)
        requires
            old(self).wf(),
        ensures
            final(self).wf(),
            final(self)@.next_id == old(self)@.next_id,
            has_task(old(self)@.tasks, id as int) ==> (r matches Ok(u) && exists|i: int|
                0 <= i < old(self)@.tasks.len() && (#[trigger] old(self)@.tasks[i]).id == id as int
                    && final(self)@.tasks == old(self)@.tasks.update(
                    i,
                    toggled(old(self)@.tasks[i]),
                )),
            !has_task(old(self)@.tasks, id as int) ==> (r matches Err(f) && f
                == Failure::OperationFailed && final(self)@ == old(self)@),
    {
        let mut i: usize = 0;
        while i < self.tasks.len()
            invariant
                old(self).wf(),
                *self == *old(self),
                i <= self.tasks.len(),
                forall|j: int| 0 <= j < i ==> (#[trigger] self@.tasks[j]).id != id as int,
            decreases self.tasks.len() - i,
        {
            if self.tasks[i].id == id {
                let t = &self.tasks[i];
                let flipped = Task {
                    id: t.id,
                    description: t.description.clone(),
                    completed: !t.completed,
                };
                proof {
                    assert(self@.tasks[i as int].id == id as int);
                }
                self.tasks[i] = flipped;
                proof {
                    assert(self@.tasks =~= old(self)@.tasks.update(
                        i as int,
                        toggled(old(self)@.tasks[i as int]),
                    ));
                }
                return Ok(());
            }
            i += 1;
        }
        Err(Failure::OperationFailed)
    }

    /// Remove the row with the given id; report an operation failure when
    /// no row carries it.
    pub fn delete_with_id(&mut self, id: i32) -> (r: Result<(), Failure>)
        requires
            old(self).wf(),
        ensures
            final(self).wf(),
            final(self)@.next_id == old(self)@.next_id,
            has_task(old(self)@.tasks, id as int) ==> (r matches Ok(u) && exists|i: int|
                0 <= i < old(self)@.tasks.len() && (#[trigger] old(self)@.tasks[i]).id == id as int
                    && final(self)@.tasks == old(self)@.tasks.remove(i)),
            !has_task(old(self)@.tasks, id as int) ==> (r matches Err(f) && f
                == Failure::OperationFailed && final(self)@ == old(self)@),
    {
        let mut i: usize = 0;
        while i < self.tasks.len()
            invariant
                old(self).wf(),
                *self == *old(self),
                i <= self.tasks.len(),
                forall|j: int| 0 <= j < i ==> (#[trigger] self@.tasks[j]).id != id as int,
            decreases self.tasks.len() - i,
        {
            if self.tasks[i].id == id {
                proof {
                    assert(self@.tasks[i as int].id == id as int);
                }
                self.tasks.remove(i);
                proof {
                    assert(self@.tasks =~= old(self)@.tasks.remove(i as int));
                }
                return Ok(());
            }
            i += 1;
        }
        Err(Failure::OperationFailed)
    }
}

} // verus!
