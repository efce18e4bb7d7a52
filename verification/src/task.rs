//! Task wakers, and the outcome of polling something that may not be ready.
use vstd::prelude::*;

verus! {

#[verifier::external_type_specification]
#[verifier::external_body]
pub struct ExWaker(std::task::Waker);

/// The outcome of a poll: a value, or not yet, with the caller's waker kept
/// to be woken when it may be.
#[derive(Debug, PartialEq, Eq, Structural)]
pub enum PollResult<T> {
    Ready(T),
    Pending,
}

/// `std::task::Waker::will_wake`: a best-effort test that two wakers wake
/// the same task. Nothing is claimed of the answer.
#[verifier::external_body]
pub(crate) fn waker_will_wake(existing: &std::task::Waker, other: &std::task::Waker) -> bool {
    existing.will_wake(other)
}

/// `<std::task::Waker as Clone>::clone`: a waker for the same task. Nothing
/// is claimed of the result.
#[verifier::external_body]
pub(crate) fn waker_clone(waker: &std::task::Waker) -> std::task::Waker {
    waker.clone()
}

/// `<std::task::Waker as Clone>::clone_from`: makes `existing` wake the task
/// of `other`. Nothing is claimed of the result.
#[verifier::external_body]
pub(crate) fn waker_clone_from(existing: &mut std::task::Waker, other: &std::task::Waker) {
    existing.clone_from(other)
}

} // verus!
