//! What travels through the dispatcher's queue.

use crate::error::Error;
use crate::method::Method;
use crate::value::Value;
use tokio::sync::mpsc::error::TryRecvError;
use tokio::sync::mpsc::{UnboundedReceiver, UnboundedSender};
use tokio::sync::oneshot;
use vstd::prelude::*;

verus! {

/// The receiving end of tokio's unbounded queue. What it holds changes under
/// the hands of other tasks, so nothing is said of its contents.
#[verifier::external_type_specification]
#[verifier::external_body]
#[verifier::reject_recursive_types(T)]
pub struct ExUnboundedReceiver<T>(UnboundedReceiver<T>);

/// The sending end of tokio's one-shot channel: the sink of one outcome.
#[verifier::external_type_specification]
#[verifier::external_body]
#[verifier::reject_recursive_types(T)]
pub struct ExOneshotSender<T>(oneshot::Sender<T>);

/// The sending end of tokio's unbounded queue.
#[verifier::external_type_specification]
#[verifier::external_body]
#[verifier::reject_recursive_types(T)]
pub struct ExUnboundedSender<T>(UnboundedSender<T>);

/// The receiving end of tokio's one-shot channel: what a caller awaits.
#[verifier::external_type_specification]
#[verifier::external_body]
#[verifier::reject_recursive_types(T)]
pub struct ExOneshotReceiver<T>(oneshot::Receiver<T>);

/// What awaiting a one-shot channel gives where the sink was dropped unused.
/// No function here names it: it is what the receiving end resolves to as a
/// future, and Verus asks for it with the receiving end.
#[verifier::external_type_specification]
#[verifier::external_body]
pub struct ExOneshotRecvError(oneshot::error::RecvError);

/// The sink that takes the outcome of one method call, once.
pub type ResultSender = oneshot::Sender<Result<Value, Error>>;

/// What the caller of one method call awaits: its outcome.
pub type ResultReceiver = oneshot::Receiver<Result<Value, Error>>;

/// Message that is sent to a worker.
#[derive(Debug)]
pub enum Message {
    /// A method call and the sink for its outcome.
    NewMethod(Method, ResultSender),
    /// The dispatcher is shutting down: the worker that takes this stops.
    Terminate,
}

/// What one look at the queue found.
#[derive(Debug)]
pub enum Polled<T> {
    /// The item at the head of the queue, which has left the queue.
    Item(T),
    /// Nothing is waiting, and there are senders left.
    Empty,
    /// Nothing is waiting, and no sender is left.
    Closed,
}

/// `UnboundedReceiver::try_recv` of tokio: takes the item at the head of the
/// queue, if one is there, without waiting. Which of the three comes back
/// depends on what other tasks have sent, so nothing is promised of it.
#[verifier::external_body]
pub(crate) fn poll<T>(receiver: &mut UnboundedReceiver<T>) -> (r: Polled<T>) {
    match receiver.try_recv() {
        Ok(item) => Polled::Item(item),
        Err(TryRecvError::Empty) => Polled::Empty,
        Err(TryRecvError::Disconnected) => Polled::Closed,
    }
}

/// `oneshot::Sender::send` of tokio: hands `outcome` to the receiving end.
/// Where the receiver is gone, the outcome comes back.
#[verifier::external_body]
pub(crate) fn fulfil<T>(sender: oneshot::Sender<T>, outcome: T) -> (r: Option<T>)
    ensures
        r matches Some(back) ==> back == outcome,
{
    sender.send(outcome).err()
}

/// `mpsc::unbounded_channel` of tokio: a new queue, by its two ends.
#[verifier::external_body]
pub(crate) fn open_queue<T>() -> (r: (UnboundedSender<T>, UnboundedReceiver<T>)) {
    tokio::sync::mpsc::unbounded_channel()
}

/// `oneshot::channel` of tokio: a new one-shot channel, by its two ends.
#[verifier::external_body]
pub(crate) fn open_sink<T>() -> (r: (oneshot::Sender<T>, oneshot::Receiver<T>)) {
    oneshot::channel()
}

/// `UnboundedSender::send` of tokio: puts `message` at the end of the queue,
/// without waiting. Where the receiving end is closed or gone, the message
/// comes back.
#[verifier::external_body]
pub(crate) fn enqueue<T>(queue: &UnboundedSender<T>, message: T) -> (r: Option<T>)
    ensures
        r matches Some(back) ==> back == message,
{
    queue.send(message).err().map(|refused| refused.0)
}

} // verus!
