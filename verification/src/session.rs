//! Flash messages: one-shot notices the request layer shows after an
//! operation completes.  Storing and retrieving them in a session cookie is
//! the collaborator's concern; this module only builds the values.

use vstd::prelude::*;

verus! {

/// A one-shot notice for the user, tagged with a kind the request layer
/// maps to a style ("success" or "error").
pub struct FlashMessage {
    pub kind: String,
    pub message: String,
}

impl FlashMessage {
    /// A notice reporting that an operation succeeded.
    pub fn success(message: &str) -> (r: Self)
        ensures
            r.kind@ == "success"@,
            r.message@ == message@,
    {
        Self { kind: "success".to_owned(), message: message.to_owned() }
    }

    /// A notice reporting that an operation was rejected or failed.
    pub fn error(message: &str) -> (r: Self)
        ensures
            r.kind@ == "error"@,
            r.message@ == message@,
    {
        Self { kind: "error".to_owned(), message: message.to_owned() }
    }
}

} // verus!
