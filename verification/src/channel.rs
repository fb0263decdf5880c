//! Unbounded channels of tokio.
use crate::task::Poll;
use std::task::{Context, Waker};
use tokio::sync::mpsc::{UnboundedReceiver, UnboundedSender};
use vstd::prelude::*;

verus! {

/// The sending half of a channel.
#[verifier::external_type_specification]
#[verifier::external_body]
#[verifier::reject_recursive_types(T)]
pub struct ExUnboundedSender<T>(UnboundedSender<T>);

/// The receiving half of a channel.
#[verifier::external_type_specification]
#[verifier::external_body]
#[verifier::reject_recursive_types(T)]
pub struct ExUnboundedReceiver<T>(UnboundedReceiver<T>);

/// `tokio::sync::mpsc::unbounded_channel` creates a channel and returns its two halves.
/// What is in a channel changes with what other tasks do, so nothing is claimed of it.
pub assume_specification<T>[ tokio::sync::mpsc::unbounded_channel::<T> ]() -> (
    UnboundedSender<T>,
    UnboundedReceiver<T>,
);

/// Sends `message` over the channel, or returns it if the receiving half is gone.
///
/// Calls `UnboundedSender::send`, which fails if the receiving half is closed or has been
/// dropped and then hands the message back. Whether it is depends on other tasks. (A channel
/// aborts the process rather than hold more messages than half the range of `usize`.)
#[verifier::external_body]
pub fn send<T>(sender: &UnboundedSender<T>, message: T) -> (result: Result<(), T>)
    ensures
        result matches Err(returned) ==> returned == message,
{
    sender.send(message).map_err(|error| error.0)
}

/// Receives the next message from the channel, or `None` if the channel is closed and
/// drained. If there is neither, the task of `current` is woken when there is.
///
/// Calls `UnboundedReceiver::poll_recv`. What comes out depends on what other tasks have
/// sent, so nothing is claimed of it: other contracts refer to this function by its outcome.
#[verifier::external_body]
pub fn poll_recv<T>(receiver: &mut UnboundedReceiver<T>, current: &Waker) -> (received: Poll<
    Option<T>,
>) {
    match receiver.poll_recv(&mut Context::from_waker(current)) {
        std::task::Poll::Ready(message) => Poll::Ready(message),
        std::task::Poll::Pending => Poll::Pending,
    }
}

} // verus!
