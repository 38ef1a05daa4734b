//! What a handler returns: a reply that is already there, or the handle of
//! a task that will produce one.

use vstd::prelude::*;
use crate::status::HttpStatus;

verus! {

/// The handle of a spawned task, `tokio::task::JoinHandle`. Nothing is
/// known of what it holds.
#[verifier::external_type_specification]
#[verifier::external_body]
#[verifier::reject_recursive_types(T)]
pub struct ExJoinHandle<T>(tokio::task::JoinHandle<T>);

/// Why a spawned task did not complete, `tokio::task::JoinError`. Nothing
/// is known of what it holds.
#[verifier::external_type_specification]
#[verifier::external_body]
pub struct ExJoinError(tokio::task::JoinError);

/// Result for user functions.
///
/// Use Async, if needed awaiting JoinHandle.
/// In other cases use Sync
pub enum RasResult {
    Sync(HttpStatus, Option<String>),
    Async(tokio::task::JoinHandle<(HttpStatus, Option<String>)>),
}

/// What remains to be done before a reply can be sent.
pub enum Step {
    /// Nothing: this is the reply.
    Reply(HttpStatus, Option<String>),
    /// Wait for the task behind this handle, and hand what the wait gave to
    /// [`joined_reply`].
    Await(tokio::task::JoinHandle<(HttpStatus, Option<String>)>),
}

/// The reply that stands in for a task that did not complete.
pub open spec fn failed_reply() -> (HttpStatus, Option<String>) {
    (HttpStatus::InternalServerError, None)
}

impl RasResult {
    /// The next step for this outcome: a synchronous outcome is the reply
    /// as it stands, an asynchronous one has to be waited for.
    pub open spec fn next_step(self) -> Step {
        match self {
            RasResult::Sync(status, data) => Step::Reply(status, data),
            RasResult::Async(handle) => Step::Await(handle),
        }
    }

    /// Turns the outcome into the step that follows it. A synchronous
    /// outcome yields exactly its status and data, with nothing to wait for.
    pub fn step(self) -> (step: Step)
        ensures
            step == self.next_step(),
    {
        match self {
            RasResult::Sync(status, data) => Step::Reply(status, data),
            RasResult::Async(handle) => Step::Await(handle),
        }
    }
}

/// The reply for an awaited task: what the task resolved to, or
/// `(InternalServerError, None)` where it did not complete.
pub fn joined_reply(
    joined: Result<(HttpStatus, Option<String>), tokio::task::JoinError>,
) -> (reply: (HttpStatus, Option<String>))
    ensures
        reply == match joined {
            Ok(resolved) => resolved,
            Err(_) => failed_reply(),
        },
{
    match joined {
        Ok(resolved) => resolved,
        Err(_) => (HttpStatus::InternalServerError, None),
    }
}

} // verus!
