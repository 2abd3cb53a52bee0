//! The dispatcher: the public surface that takes method calls in.

pub mod laws;
pub mod message;
pub mod request;
pub mod response;
pub mod worker;

use crate::client::message::{
    enqueue, open_queue, open_sink, Message, ResultReceiver, ResultSender,
};
use crate::config::Config;
use crate::method::Method;
use crate::order::reversed;
use crate::text::has_prefix;
use tokio::sync::mpsc::{UnboundedReceiver, UnboundedSender};
use vstd::pervasive::unreached;
use vstd::prelude::*;

verus! {

/// The most method calls that the provider takes in one `execute`.
pub const MAX_METHODS_IN_EXECUTE: u8 = 25;

/// Whether a method of this name is kept for the dispatcher itself: the name
/// starts with `execute`.
pub open spec fn is_reserved_name(name: Seq<char>) -> bool {
    "execute"@.is_prefix_of(name)
}

/// Why a method call was not taken in.
#[derive(Debug, PartialEq, Eq, Clone, Copy)]
pub enum SubmitError {
    /// The method's name is reserved: batching is the dispatcher's own work.
    Reserved,
    /// No worker is left to take the call.
    Closed,
}

/// How the signals of a shutdown fared.
#[derive(Debug, PartialEq, Eq, Clone, Copy)]
pub struct Signals {
    /// The signals that the queue took.
    pub posted: usize,
    /// The signals that the queue refused, because no worker is left.
    pub refused: usize,
}

/// The dispatcher as its callers see it: it takes method calls in and puts
/// them on the queue that the workers share.
pub struct Client {
    sender: UnboundedSender<Message>,
    workers: usize,
}

impl Client {
    /// The number of workers that serve this dispatcher, one for each
    /// credential.
    pub closed spec fn workers(&self) -> nat {
        self.workers as nat
    }

    /// A dispatcher for `configs`: the client, the receiving end of its queue
    /// and, for each credential in the order given, the number of the worker
    /// that is to own it.
    pub fn from_configs<C>(configs: Vec<Config<C>>) -> (r: (
        Client,
        UnboundedReceiver<Message>,
        Vec<(usize, Config<C>)>,
    ))
        ensures
            r.0.workers() == configs@.len(),
            r.2@.len() == configs@.len(),
            forall|i: int| 0 <= i < configs@.len() ==> (#[trigger] r.2@[i]) == (i as usize, configs@[i]),
    {
        let total: usize = configs.len();
        let (sender, receiver) = open_queue();
        let mut rest = reversed(configs);
        let mut seats: Vec<(usize, Config<C>)> = Vec::new();
        while rest.len() > 0
            invariant
                total == configs@.len(),
                rest@.len() + seats@.len() == total,
                forall|k: int| 0 <= k < rest@.len() ==> rest@[k] == configs@[total - 1 - k],
                forall|i: int| 0 <= i < seats@.len() ==> (#[trigger] seats@[i]) == (i as usize, configs@[i]),
            decreases rest@.len(),
        {
            let index: usize = seats.len();
            match rest.pop() {
                Some(config) => {
                    seats.push((index, config));
                },
                None => {},
            }
        }
        (Client { sender, workers: total }, receiver, seats)
    }

    /// Whether `name` is kept for the dispatcher itself.
    pub fn is_reserved(name: &str) -> (r: bool)
        ensures
            r == is_reserved_name(name@),
    {
        has_prefix(name, "execute")
    }

    /// What goes on the queue for a method call and the sink of its outcome:
    /// the two together, as one message. A call of a reserved name is refused,
    /// and nothing is to go on the queue for it.
    pub fn envelope(method: Method, sink: ResultSender) -> (r: Result<Message, SubmitError>)
        ensures
            match r {
                Ok(message) => !is_reserved_name(method@.name) && message == Message::NewMethod(
                    method,
                    sink,
                ),
                Err(e) => is_reserved_name(method@.name) && e == SubmitError::Reserved,
            },
    {
        if Client::is_reserved(method.name.as_str()) {
            Err(SubmitError::Reserved)
        } else {
            Ok(Message::NewMethod(method, sink))
        }
    }

    /// Takes a method call in. A new sink is opened, the message of
    /// [`Client::envelope`] is handed to the queue, and the other end of the
    /// sink is handed back for the caller to await; where the queue refuses
    /// the message because no worker is left to take it, the call is refused
    /// as `Closed`. A reserved name is no input of this function: batching is
    /// the dispatcher's own work, and a caller that cannot rule the name out
    /// asks [`Client::is_reserved`] first.
    pub fn method(&self, method: Method) -> (r: Result<ResultReceiver, SubmitError>)
        requires
            !is_reserved_name(method@.name),
        ensures
            r is Ok || r == Err::<ResultReceiver, SubmitError>(SubmitError::Closed),
    {
        let (sink, outcome) = open_sink();
        match Client::envelope(method, sink) {
            Ok(message) => match enqueue(&self.sender, message) {
                None => Ok(outcome),
                Some(_) => Err(SubmitError::Closed),
            },
            Err(_) => unreached(),
        }
    }

    /// The signals of a shutdown: one `Terminate` for each worker.
    pub fn terminations(&self) -> (r: Vec<Message>)
        ensures
            r@.len() == self.workers(),
            forall|i: int| 0 <= i < r@.len() ==> (#[trigger] r@[i]) is Terminate,
    {
        let mut signals: Vec<Message> = Vec::new();
        while signals.len() < self.workers
            invariant
                signals@.len() <= self.workers,
                forall|i: int| 0 <= i < signals@.len() ==> (#[trigger] signals@[i]) is Terminate,
            decreases self.workers - signals@.len(),
        {
            signals.push(Message::Terminate);
        }
        signals
    }

    /// Tells the workers to stop: each signal of [`Client::terminations`] is
    /// handed to the queue, behind what waits there. The result counts the
    /// signals that the queue took and those that it refused.
    pub fn shutdown(&self) -> (r: Signals)
        ensures
            r.posted + r.refused == self.workers(),
    {
        let mut signals = self.terminations();
        let mut posted: usize = 0;
        let mut refused: usize = 0;
        while signals.len() > 0
            invariant
                posted + refused + signals@.len() == self.workers(),
            decreases signals@.len(),
        {
            match signals.pop() {
                Some(signal) => {
                    if enqueue(&self.sender, signal).is_none() {
                        posted += 1;
                    } else {
                        refused += 1;
                    }
                },
                None => {},
            }
        }
        Signals { posted, refused }
    }
}

} // verus!
