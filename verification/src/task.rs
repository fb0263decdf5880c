//! Cooperative tasks: the outcome of polling, and wakers.
use std::task::Waker;
use vstd::prelude::*;

verus! {

/// Indicates whether a value is available or if the current task has been scheduled to
/// receive a wakeup instead.
pub enum Poll<V> {
    /// A value is immediately ready.
    Ready(V),
    /// A value is not ready yet.
    Pending,
}

/// A handle for waking up a task, as the executor of the task provides it.
#[verifier::external_type_specification]
#[verifier::external_body]
pub struct ExWaker(Waker);

/// `Waker::clone` gives another handle for waking up the same task. Which task that
/// is cannot be observed, so nothing is claimed of the result; that one waker is
/// a clone of another is stated with `vstd::pervasive::cloned`.
pub assume_specification[ <Waker as Clone>::clone ](waker: &Waker) -> Waker;

/// `Waker::wake` wakes up the task. It returns nothing, and nothing is claimed of it.
pub assume_specification[ Waker::wake ](waker: Waker);

} // verus!
