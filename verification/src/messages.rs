//! The message contract: typed units of work crossing the offload boundary,
//! the task values they produce, and the failure taxonomy every outcome
//! draws from.

use vstd::prelude::*;

verus! {

/// A task row as storage hands it back: id, description, completion flag.
/// The offload core does not interpret these fields beyond passing them
/// through.
#[derive(Debug)]
pub struct Task {
    pub id: i32,
    pub description: String,
    pub completed: bool,
}

/// The mathematical value of a [`Task`].
#[verifier::ext_equal]
pub ghost struct TaskModel {
    pub id: int,
    pub description: Seq<char>,
    pub completed: bool,
}

impl View for Task {
    type V = TaskModel;

    open spec fn view(&self) -> TaskModel {
        TaskModel {
            id: self.id as int,
            description: self.description@,
            completed: self.completed,
        }
    }
}

/// The models of a sequence of task rows.
pub open spec fn task_models(tasks: Seq<Task>) -> Seq<TaskModel> {
    tasks.map_values(|t: Task| t@)
}

/// A task about to be inserted; storage assigns the id.
pub struct NewTask {
    pub description: String,
}

/// Unit of work: create a task with the given description.
pub struct CreateTask {
    pub description: String,
}

/// Unit of work: list every task in id order.
pub struct AllTasks;

/// Unit of work: flip the completion flag of the task with this id.
pub struct ToggleTask {
    pub id: i32,
}

/// Unit of work: remove the task with this id.
pub struct DeleteTask {
    pub id: i32,
}

/// The tagged union of the unit-of-work kinds.  Each kind carries exactly
/// the fields its operation needs and produces exactly one result shape;
/// adding a kind adds a variant here and an arm to the executor, and leaves
/// mailbox and resource pool untouched.
pub enum Message {
    Create(CreateTask),
    All(AllTasks),
    Toggle(ToggleTask),
    Delete(DeleteTask),
}

/// Why an operation did not produce its success value.
#[derive(Clone, Copy, Debug, PartialEq, Eq, Structural)]
pub enum Failure {
    /// The resource pool's wait bound was exceeded.
    ResourceUnavailable,
    /// The mailbox was at capacity at submission time.
    Overloaded,
    /// The domain operation itself failed against storage.
    OperationFailed,
    /// Internal only: a connection was discarded mid-operation.  A worker
    /// reports this to the caller as [`Failure::OperationFailed`]; it is
    /// never written to a completion slot.
    Corrupted,
}

/// The result of one unit of work, written exactly once to its completion
/// slot.
#[derive(Debug)]
pub enum Outcome {
    /// A create, toggle or delete succeeded.
    Done,
    /// A list succeeded with the tasks in id order.
    Tasks(Vec<Task>),
    /// The operation failed with the given kind.
    Failed(Failure),
}

/// An outcome fit to hand to a caller: the internal `Corrupted` kind is
/// translated before a completion slot is written.
pub open spec fn surfaceable(out: Outcome) -> bool {
    out != Outcome::Failed(Failure::Corrupted)
}

} // verus!
