//! Batching ahead of the workers: a count of the calls that are being served,
//! and a waiting line that is handed on in batches.

use crate::client::message::ResultSender;
use crate::client::worker::{calls_in, sinks_in, Envelope, Worker};
use crate::client::{is_reserved_name, Client, SubmitError, MAX_METHODS_IN_EXECUTE};
use crate::method::Method;
use vstd::prelude::*;

verus! {

/// What a worker reports of itself.
#[derive(Debug, PartialEq, Eq, Clone, Copy)]
pub enum Event {
    /// A call was taken up.
    GotWork,
    /// A call was served.
    DoneWork,
}

/// Counts the calls that are being served.
pub struct TaskObserver {
    running_tasks: usize,
}

impl View for TaskObserver {
    type V = nat;

    closed spec fn view(&self) -> nat {
        self.running_tasks as nat
    }
}

impl TaskObserver {
    /// An observer that has seen nothing yet.
    pub fn new() -> (r: TaskObserver)
        ensures
            r@ == 0,
    {
        TaskObserver { running_tasks: 0 }
    }

    /// Takes one report into account. More calls cannot be served than were
    /// taken up.
    pub fn observe(&mut self, event: Event)
        requires
            event is DoneWork ==> old(self)@ > 0,
            event is GotWork ==> old(self)@ < usize::MAX,
        ensures
            final(self)@ == match event {
                Event::GotWork => old(self)@ + 1,
                Event::DoneWork => (old(self)@ - 1) as nat,
            },
    {
        match event {
            Event::GotWork => {
                self.running_tasks = self.running_tasks + 1;
            },
            Event::DoneWork => {
                self.running_tasks = self.running_tasks - 1;
            },
        }
    }

    /// The number of calls that are being served.
    pub fn running_task(&self) -> (r: usize)
        ensures
            r == self@,
    {
        self.running_tasks
    }
}

/// Why no batch was handed on.
#[derive(Debug, PartialEq, Eq, Clone, Copy)]
pub enum ExecuteError {
    /// Nothing is waiting.
    EmptyQueue,
}

/// The number of envelopes that go into the next batch of a line of `waiting`:
/// all of them, up to what one `execute` takes.
pub open spec fn batch_size(waiting: nat) -> nat {
    if waiting < MAX_METHODS_IN_EXECUTE {
        waiting
    } else {
        MAX_METHODS_IN_EXECUTE as nat
    }
}

/// The line of envelopes that wait while every worker is busy.
pub struct ExecuteManager {
    queue: Vec<Envelope>,
}

impl View for ExecuteManager {
    type V = Seq<Envelope>;

    closed spec fn view(&self) -> Seq<Envelope> {
        self.queue@
    }
}

impl ExecuteManager {
    /// An empty line.
    pub fn new() -> (r: ExecuteManager)
        ensures
            r@ == Seq::<Envelope>::empty(),
    {
        ExecuteManager { queue: Vec::new() }
    }

    /// Takes the next batch off the front of the line: its calls and, at the
    /// same positions, their sinks. Fails on an empty line.
    pub fn push_execute(&mut self) -> (r: Result<(Vec<Method>, Vec<ResultSender>), ExecuteError>)
        ensures
            match r {
                Ok((methods, senders)) => {
                    let n = batch_size(old(self)@.len()) as int;
                    &&& old(self)@.len() > 0
                    &&& methods@ == calls_in(old(self)@.take(n))
                    &&& senders@ == sinks_in(old(self)@.take(n))
                    &&& final(self)@ == old(self)@.skip(n)
                },
                Err(_) => old(self)@.len() == 0 && final(self)@ == old(self)@,
            },
    {
        if self.queue.len() == 0 {
            return Err(ExecuteError::EmptyQueue);
        }
        let n: usize = if self.queue.len() < MAX_METHODS_IN_EXECUTE as usize {
            self.queue.len()
        } else {
            MAX_METHODS_IN_EXECUTE as usize
        };
        let mut batch = self.queue.split_off(n);
        core::mem::swap(&mut self.queue, &mut batch);
        assert(batch@ =~= old(self)@.take(n as int));
        assert(self.queue@ =~= old(self)@.skip(n as int));
        Ok(Worker::split(batch))
    }

    /// Puts an envelope at the end of the line. A line that has grown to a
    /// full batch hands that batch on at once.
    pub fn push(&mut self, method: Method, sender: ResultSender) -> (r: Option<
        (Vec<Method>, Vec<ResultSender>),
    >)
        ensures
            ({
                let line = old(self)@.push((method, sender));
                let full = MAX_METHODS_IN_EXECUTE as int;
                match r {
                    Some((methods, senders)) => {
                        &&& line.len() >= full
                        &&& methods@ == calls_in(line.take(full))
                        &&& senders@ == sinks_in(line.take(full))
                        &&& final(self)@ == line.skip(full)
                    },
                    None => line.len() < full && final(self)@ == line,
                }
            }),
    {
        self.queue.push((method, sender));
        if self.queue.len() >= MAX_METHODS_IN_EXECUTE as usize {
            match self.push_execute() {
                Ok(batch) => Some(batch),
                Err(_) => None,
            }
        } else {
            None
        }
    }
}

/// Where a call goes when it comes in.
#[derive(Debug, PartialEq, Eq, Clone, Copy)]
pub enum Route {
    /// A worker is free: the call goes on the workers' queue.
    Direct,
    /// Every worker is busy: the call joins the waiting line.
    Line,
}

/// The pool as its callers see it, by the one decision it makes.
pub struct InstancePool;

impl InstancePool {
    /// Where a new call goes. A call of a reserved name goes nowhere: it is
    /// refused before anything is routed. Any other call goes straight to the
    /// workers while fewer calls are being served than there are workers,
    /// else to the waiting line.
    pub fn run(method: &Method, running_tasks: usize, workers: usize) -> (r: Result<
        Route,
        SubmitError,
    >)
        ensures
            match r {
                Ok(route) => !is_reserved_name(method@.name) && route == if running_tasks
                    < workers {
                    Route::Direct
                } else {
                    Route::Line
                },
                Err(e) => is_reserved_name(method@.name) && e == SubmitError::Reserved,
            },
    {
        if Client::is_reserved(method.name.as_str()) {
            Err(SubmitError::Reserved)
        } else if running_tasks < workers {
            Ok(Route::Direct)
        } else {
            Ok(Route::Line)
        }
    }
}

} // verus!
