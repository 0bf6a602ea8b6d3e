//! The request-layer decisions: validate input, reinterpret the browser's
//! method field, build the right unit of work and submit it through the
//! dispatcher facade.
//!
//! Everything here runs on the non-blocking side of the boundary: these
//! functions only enqueue work and shape responses; the storage work
//! itself happens later, in a worker, and its outcome arrives through the
//! submission's completion slot.

use vstd::prelude::*;

use crate::dispatch::{submit_rel, Dispatcher};
use crate::messages::{AllTasks, CreateTask, DeleteTask, Failure, Message, Outcome, ToggleTask};
use crate::session::FlashMessage;

verus! {

/// The form behind the create action: the description the user typed.
pub struct CreateForm {
    pub description: String,
}

/// The path parameter of the update and delete actions: the task id.
pub struct UpdateParams {
    pub id: i32,
}

/// The form behind the update and delete actions: browsers only send GET
/// and POST, so the intended method rides in a form field.
pub struct UpdateForm {
    pub _method: String,
}

/// How the create action answered at submission time.
pub enum CreateResponse {
    /// The description was empty: rejected by the request layer itself,
    /// with the flash message to show.  Nothing was submitted.
    Invalid(FlashMessage),
    /// The unit of work was accepted under this completion-slot ticket.
    Submitted(usize),
    /// The mailbox was at capacity; nothing was submitted.
    Overloaded,
}

/// Why the reinterpreted-method action failed at submission time.
#[derive(Clone, Copy, Debug, PartialEq, Eq, Structural)]
pub enum MethodError {
    /// The method field named neither "put" nor "delete".
    UnsupportedMethod,
    /// The mailbox was at capacity; nothing was submitted.
    Overloaded,
}

/// The index action: offload listing every task.  The page render awaits
/// the outcome through the returned ticket.
pub fn index(d: &mut Dispatcher) -> (r: Result<usize, Failure>)
    requires
        old(d).wf(),
    ensures
        final(d).wf(),
        old(d)@.queue.len() < old(d)@.mailbox_capacity ==> (r matches Ok(t) && submit_rel(
            old(d)@,
            Message::All(AllTasks),
            final(d)@,
            t,
        )),
        old(d)@.queue.len() >= old(d)@.mailbox_capacity ==> (r matches Err(f) && f
            == Failure::Overloaded && final(d)@ == old(d)@),
{
    d.submit(Message::All(AllTasks))
}

/// The create action.  An empty description is never submitted: it is
/// rejected here, by the layer that built the form.  A non-empty one is
/// always offloaded (or reported `Overloaded`), never silently dropped.
pub fn create(d: &mut Dispatcher, form: CreateForm) -> (r: CreateResponse)
    requires
        old(d).wf(),
    ensures
        final(d).wf(),
        form.description@.len() == 0 ==> (r matches CreateResponse::Invalid(flash)
            && flash.kind@ == "error"@ && flash.message@ == "Description cannot be empty"@
            && final(d)@ == old(d)@),
        form.description@.len() > 0 && old(d)@.queue.len() < old(d)@.mailbox_capacity ==> (r
            matches CreateResponse::Submitted(t) && submit_rel(
            old(d)@,
            Message::Create(CreateTask { description: form.description }),
            final(d)@,
            t,
        )),
        form.description@.len() > 0 && old(d)@.queue.len() >= old(d)@.mailbox_capacity ==> (r
            matches CreateResponse::Overloaded && final(d)@ == old(d)@),
{
    if form.description.as_str().is_empty() {
        CreateResponse::Invalid(FlashMessage::error("Description cannot be empty"))
    } else {
        match d.submit(Message::Create(CreateTask { description: form.description })) {
            Ok(t) => CreateResponse::Submitted(t),
            Err(f) => CreateResponse::Overloaded,
        }
    }
}

/// The update action: offload toggling the task named by the path.
fn update(d: &mut Dispatcher, params: UpdateParams) -> (r: Result<usize, Failure>)
    requires
        old(d).wf(),
    ensures
        final(d).wf(),
        old(d)@.queue.len() < old(d)@.mailbox_capacity ==> (r matches Ok(t) && submit_rel(
            old(d)@,
            Message::Toggle(ToggleTask { id: params.id }),
            final(d)@,
            t,
        )),
        old(d)@.queue.len() >= old(d)@.mailbox_capacity ==> (r matches Err(f) && f
            == Failure::Overloaded && final(d)@ == old(d)@),
{
    d.submit(Message::Toggle(ToggleTask { id: params.id }))
}

/// The delete action: offload removing the task named by the path.
fn delete(d: &mut Dispatcher, params: UpdateParams) -> (r: Result<usize, Failure>)
    requires
        old(d).wf(),
    ensures
        final(d).wf(),
        old(d)@.queue.len() < old(d)@.mailbox_capacity ==> (r matches Ok(t) && submit_rel(
            old(d)@,
            Message::Delete(DeleteTask { id: params.id }),
            final(d)@,
            t,
        )),
        old(d)@.queue.len() >= old(d)@.mailbox_capacity ==> (r matches Err(f) && f
            == Failure::Overloaded && final(d)@ == old(d)@),
{
    d.submit(Message::Delete(DeleteTask { id: params.id }))
}

/// The action behind a POST to a task's path: the form's method field
/// decides whether it means a toggle ("put"), a removal ("delete"), or is
/// an unsupported method rejected without submitting anything.
pub fn update_with_reinterpreted_method(
    d: &mut Dispatcher,
    params: UpdateParams,
    form: UpdateForm,
) -> (r: Result<usize, MethodError>)
    requires
        old(d).wf(),
    ensures
        final(d).wf(),
        form._method@ == "put"@ && old(d)@.queue.len() < old(d)@.mailbox_capacity ==> (r
            matches Ok(t) && submit_rel(
            old(d)@,
            Message::Toggle(ToggleTask { id: params.id }),
            final(d)@,
            t,
        )),
        form._method@ == "delete"@ && old(d)@.queue.len() < old(d)@.mailbox_capacity ==> (r
            matches Ok(t) && submit_rel(
            old(d)@,
            Message::Delete(DeleteTask { id: params.id }),
            final(d)@,
            t,
        )),
        (form._method@ == "put"@ || form._method@ == "delete"@) && old(d)@.queue.len() >= old(
            d,
        )@.mailbox_capacity ==> (r matches Err(e) && e == MethodError::Overloaded && final(d)@
            == old(d)@),
        form._method@ != "put"@ && form._method@ != "delete"@ ==> (r matches Err(e) && e
            == MethodError::UnsupportedMethod && final(d)@ == old(d)@),
{
    proof {
        reveal_strlit("put");
        reveal_strlit("delete");
        assert("put"@ =~= seq!['p', 'u', 't']);
        assert("delete"@ =~= seq!['d', 'e', 'l', 'e', 't', 'e']);
        assert("put"@ != "delete"@);
    }
    let put = "put".to_owned();
    let del = "delete".to_owned();
    if form._method == put {
        match update(d, params) {
            Ok(t) => Ok(t),
            Err(f) => Err(MethodError::Overloaded),
        }
    } else if form._method == del {
        match delete(d, params) {
            Ok(t) => Ok(t),
            Err(f) => Err(MethodError::Overloaded),
        }
    } else {
        Err(MethodError::UnsupportedMethod)
    }
}

/// The flash message the create action shows once its unit of work has
/// resolved successfully; a failed outcome shows none.
pub fn create_flash(out: &Outcome) -> (r: Option<FlashMessage>)
    ensures
        *out == Outcome::Done ==> (r matches Some(f) && f.kind@ == "success"@ && f.message@
            == "Task successfully added"@),
        *out != Outcome::Done ==> r is None,
{
    match out {
        Outcome::Done => Some(FlashMessage::success("Task successfully added")),
        Outcome::Tasks(ts) => None,
        Outcome::Failed(f) => None,
    }
}

/// The flash message the delete action shows once its unit of work has
/// resolved successfully; a failed outcome shows none.
pub fn delete_flash(out: &Outcome) -> (r: Option<FlashMessage>)
    ensures
        *out == Outcome::Done ==> (r matches Some(f) && f.kind@ == "success"@ && f.message@
            == "Task was deleted."@),
        *out != Outcome::Done ==> r is None,
{
    match out {
        Outcome::Done => Some(FlashMessage::success("Task was deleted.")),
        Outcome::Tasks(ts) => None,
        Outcome::Failed(f) => None,
    }
}

} // verus!
