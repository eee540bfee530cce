//! The queue between the front end and the worker of an association: a
//! bounded `tokio` channel of datagram payloads, and the worker's task
//! handle.
//!
//! Nothing here is proved.  What a queue holds changes under a shared
//! reference as the worker drains it, so no contract names it; only the
//! bound that a queue was created with has a name.

use tokio::sync::mpsc::{channel, Receiver, Sender};
use tokio::sync::mpsc::error::TrySendError;
use tokio::task::{JoinError, JoinHandle};
use vstd::prelude::*;

verus! {

#[verifier::external_type_specification]
#[verifier::external_body]
#[verifier::reject_recursive_types(T)]
pub struct ExSender<T>(Sender<T>);

#[verifier::external_type_specification]
#[verifier::external_body]
#[verifier::reject_recursive_types(T)]
pub struct ExReceiver<T>(Receiver<T>);

#[verifier::external_type_specification]
#[verifier::external_body]
#[verifier::reject_recursive_types(T)]
pub struct ExJoinHandle<T>(JoinHandle<T>);

#[verifier::external_type_specification]
#[verifier::external_body]
pub struct ExJoinError(JoinError);

/// The largest bound that a queue can be created with.
pub const MAX_QUEUE_BOUND: usize = usize::MAX / 8;

/// What became of a payload offered to a queue.
#[derive(Clone, Copy, Debug, PartialEq, Eq, Structural)]
pub enum Admission {
    /// The payload is in the queue.
    Queued,
    /// The queue holds as many payloads as its bound: the payload is dropped.
    Full,
    /// The worker is gone: the payload is dropped.
    Closed,
}

/// The number of payloads that the queue behind `sender` was created to hold.
pub uninterp spec fn queue_bound(sender: Sender<Vec<u8>>) -> nat;

/// `tokio::sync::mpsc::channel`: a queue that holds at most `bound`
/// payloads.  It panics on a bound of zero or above an eighth of the
/// address space.
#[verifier::external_body]
pub(crate) fn queue_new(bound: usize) -> (ends: (Sender<Vec<u8>>, Receiver<Vec<u8>>))
    requires
        0 < bound <= MAX_QUEUE_BOUND,
    ensures
        queue_bound(ends.0) == bound,
{
    channel(bound)
}

/// `Sender::try_send`: offers a payload without waiting.  Which of the
/// three outcomes comes back depends on what the worker has taken out by
/// now; nothing is claimed of it.
#[verifier::external_body]
pub(crate) fn queue_try_send(sender: &Sender<Vec<u8>>, payload: Vec<u8>) -> (admission: Admission) {
    match sender.try_send(payload) {
        Ok(()) => Admission::Queued,
        Err(TrySendError::Full(_)) => Admission::Full,
        Err(TrySendError::Closed(_)) => Admission::Closed,
    }
}

/// `JoinHandle::abort`: asks the runtime to cancel the task.  It returns
/// at once and does not unwind.
#[verifier::external_body]
pub(crate) fn task_abort(handle: &JoinHandle<()>)
    opens_invariants none
    no_unwind
{
    handle.abort()
}

} // verus!
