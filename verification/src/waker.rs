//! One-shot wake-up slots.
//!
//! A slot holds at most one `Waker`: the token of the task that last
//! suspended on it.

use std::task::Waker;
use vstd::prelude::*;

verus! {

#[verifier::external_type_specification]
#[verifier::external_body]
pub struct ExWaker(Waker);

/// `Waker::clone`: another handle on the task of `waker`.  Nothing is
/// claimed of how the two compare.
#[verifier::external_body]
fn waker_clone(waker: &Waker) -> (copy: Waker) {
    waker.clone()
}

/// `Waker::will_wake`: a best-effort answer to whether both wake the same
/// task.  Nothing is claimed of the answer.
#[verifier::external_body]
fn waker_will_wake(waker: &Waker, other: &Waker) -> (same: bool) {
    waker.will_wake(other)
}

/// `Waker::wake`: schedules the task of `waker` and consumes the handle.
#[verifier::external_body]
fn waker_wake(waker: Waker) {
    waker.wake()
}

/// Puts a handle on the task of `waker` into `slot`.  A waker that was
/// waiting there is displaced, and is woken unless it reports that it wakes
/// the same task: no suspended task is forgotten silently.
pub fn register(slot: &mut Option<Waker>, waker: &Waker)
    ensures
        final(slot).is_some(),
{
    let stale = slot.take();
    *slot = Some(waker_clone(waker));
    match stale {
        Some(old_waker) => {
            if !waker_will_wake(&old_waker, waker) {
                waker_wake(old_waker);
            }
        },
        None => {},
    }
}

/// Empties `slot`, waking the waker that waited there, if any.
pub fn wake(slot: &mut Option<Waker>)
    ensures
        final(slot).is_none(),
{
    match slot.take() {
        Some(waker) => waker_wake(waker),
        None => {},
    }
}

} // verus!
