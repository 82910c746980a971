//! The result channel: the one queue through which background tasks hand
//! their reports back to the redraw loop.
//!
//! One unbounded multiple-producer/single-consumer pair is created at
//! startup and lives for the whole process. Background tasks clone the
//! sender and send once when they finish; the redraw loop polls the receiver
//! without ever blocking. What a poll returns depends on what other threads
//! have sent, so nothing is promised of it here; `state` says what the shell
//! does with whatever arrives.

use vstd::prelude::*;

use crate::adapter::TaskResult;

verus! {

#[verifier::external_type_specification]
#[verifier::external_body]
#[verifier::reject_recursive_types(T)]
pub struct ExUnboundedSender<T>(tokio::sync::mpsc::UnboundedSender<T>);

#[verifier::external_type_specification]
#[verifier::external_body]
#[verifier::reject_recursive_types(T)]
pub struct ExUnboundedReceiver<T>(tokio::sync::mpsc::UnboundedReceiver<T>);

/// Relies on tokio::sync::mpsc::unbounded_channel: returns the two ends of a
/// fresh unbounded FIFO queue; sends never block, and the sender can be
/// cloned and outlive any number of sends.
#[verifier::external_body]
pub(crate) fn new_result_channel<B>() -> (r: (
    tokio::sync::mpsc::UnboundedSender<TaskResult<B>>,
    tokio::sync::mpsc::UnboundedReceiver<TaskResult<B>>,
))
{
    tokio::sync::mpsc::unbounded_channel()
}

/// Relies on tokio's UnboundedReceiver::try_recv: returns immediately, either
/// with a queued report or with nothing when the queue is currently empty or
/// every sender is gone; queued reports come out in send order.
#[verifier::external_body]
pub(crate) fn try_recv_result<B>(
    rx: &mut tokio::sync::mpsc::UnboundedReceiver<TaskResult<B>>,
) -> (r: Option<TaskResult<B>>)
{
    match rx.try_recv() {
        Ok(m) => Some(m),
        Err(_) => None,
    }
}

} // verus!
