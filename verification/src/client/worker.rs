//! One processing unit of the dispatcher.

use crate::client::message::{fulfil, poll, Message, Polled, ResultSender};
use crate::client::response::{delivered, outcome_view, outcomes_view, parsed_view};
use crate::client::MAX_METHODS_IN_EXECUTE;
use crate::config::Config;
use crate::error::Error;
use crate::execute_compiler::{calls_of, script_text, ExecuteCompiler};
use crate::method::{methods_view, Method, MethodView, Params};
use crate::order::reversed;
use crate::value::{Json, Member, Value};
use crate::vk_error::VkError;
use std::time::Duration;
use tokio::sync::mpsc::UnboundedReceiver;
use vstd::pervasive::unreached;
use vstd::prelude::*;
use vstd::string::*;

verus! {

/// A method call together with the sink for its outcome.
pub type Envelope = (Method, ResultSender);

/// The calls of `envelopes`, in order.
pub open spec fn calls_in(envelopes: Seq<Envelope>) -> Seq<Method> {
    Seq::new(envelopes.len(), |i: int| envelopes[i].0)
}

/// The sinks of `envelopes`, in order.
pub open spec fn sinks_in(envelopes: Seq<Envelope>) -> Seq<ResultSender> {
    Seq::new(envelopes.len(), |i: int| envelopes[i].1)
}

/// The one method call that carries a whole group to the provider: `execute`,
/// with the script for `methods` as its only parameter, `code`.
pub open spec fn execute_view(methods: Seq<Method>) -> MethodView {
    MethodView {
        name: "execute"@,
        params: seq![
            Member {
                key: "code"@,
                value: Json::String(script_text(calls_of(methods_view(methods)))),
            },
        ],
    }
}

/// What the loop does with one look at the queue while it fills a group.
#[derive(Debug, PartialEq, Eq, Clone, Copy)]
pub enum Flow {
    /// An envelope was taken: look again, unless the group is full.
    More,
    /// Nothing is waiting: the group is as large as it gets.
    Done,
    /// The queue is closed or the dispatcher shuts down: serve what was taken,
    /// then stop.
    Stop,
}

/// What a worker took from the queue without waiting.
pub struct Drained {
    /// The envelopes, in the order they left the queue.
    pub methods: Vec<Envelope>,
    /// Whether the worker is to stop once these are served.
    pub stop: bool,
}

/// The envelopes that one request serves: at least one, at most
/// [`MAX_METHODS_IN_EXECUTE`]. Once formed, a group does not change.
pub struct Group {
    envelopes: Vec<Envelope>,
}

impl View for Group {
    type V = Seq<Envelope>;

    closed spec fn view(&self) -> Seq<Envelope> {
        self.envelopes@
    }
}

impl Group {
    #[verifier::type_invariant]
    spec fn within_bounds(&self) -> bool {
        1 <= self.envelopes@.len() <= MAX_METHODS_IN_EXECUTE
    }

    /// The group of `head` and, behind it, `rest`. Where that is more than the
    /// provider takes in one request, no group is formed and the envelopes
    /// come back as they were given.
    pub fn new(head: Envelope, rest: Vec<Envelope>) -> (r: Result<Group, (Envelope, Vec<Envelope>)>)
        ensures
            match r {
                Ok(group) => rest@.len() < MAX_METHODS_IN_EXECUTE && group@ == seq![head] + rest@,
                Err((first, others)) => rest@.len() >= MAX_METHODS_IN_EXECUTE && first == head
                    && others == rest,
            },
    {
        if rest.len() >= MAX_METHODS_IN_EXECUTE as usize {
            return Err((head, rest));
        }
        let mut envelopes = rest;
        envelopes.insert(0, head);
        assert(envelopes@ =~= seq![head] + rest@);
        Ok(Group { envelopes })
    }

    /// The number of envelopes, which is never outside of what one request
    /// can carry.
    pub fn len(&self) -> (n: usize)
        ensures
            n == self@.len(),
            1 <= n <= MAX_METHODS_IN_EXECUTE,
    {
        proof {
            use_type_invariant(self);
        }
        self.envelopes.len()
    }

    /// The envelopes, in their order.
    pub fn into_envelopes(self) -> (r: Vec<Envelope>)
        ensures
            r@ == self@,
            1 <= r@.len() <= MAX_METHODS_IN_EXECUTE,
    {
        proof {
            use_type_invariant(&self);
        }
        self.envelopes
    }
}

/// How the outcomes of one request were received.
#[derive(Debug, PartialEq, Eq, Clone, Copy)]
pub struct Delivery {
    /// The callers that took their outcome.
    pub taken: usize,
    /// The callers that had left before their outcome came.
    pub gone: usize,
}

/// The request that a worker is to make for a group.
pub enum Dispatch {
    /// A group of one: the call goes out by itself.
    Method(Method, ResultSender),
    /// A larger group: one `execute` call goes out for all of them, and the
    /// sinks wait for its answer, each at the position of its call.
    Execute(Method, Vec<ResultSender>),
}

/// What a worker does once a request is on its way.
#[derive(Debug, PartialEq, Eq, Clone, Copy)]
pub enum Then {
    /// Leave the loop.
    Stop,
    /// Let the queue go, pause for this long, and take the next head.
    Pause(Duration),
}

/// What a worker does in one turn of its loop.
pub enum Round {
    /// Leave the loop.
    Exit,
    /// Make the request of `dispatch`, and go on as `then` says.
    Work { dispatch: Dispatch, then: Then },
}

/// The decisions of one worker: what it takes from the queue, what it sends to
/// the provider and what it hands to the callers.
pub struct Worker;

impl Worker {
    /// Takes one look at the queue into account: an envelope joins `taken`,
    /// anything else ends the filling.
    pub fn accept(taken: &mut Vec<Envelope>, polled: Polled<Message>) -> (r: Flow)
        ensures
            final(taken)@ == match polled {
                Polled::Item(Message::NewMethod(method, sender)) => old(taken)@.push(
                    (method, sender),
                ),
                _ => old(taken)@,
            },
            r == match polled {
                Polled::Item(Message::NewMethod(_, _)) => Flow::More,
                Polled::Empty => Flow::Done,
                _ => Flow::Stop,
            },
    {
        match polled {
            Polled::Item(Message::NewMethod(method, sender)) => {
                taken.push((method, sender));
                Flow::More
            },
            Polled::Item(Message::Terminate) => Flow::Stop,
            Polled::Empty => Flow::Done,
            Polled::Closed => Flow::Stop,
        }
    }

    /// Takes envelopes from the queue until it is empty for the moment or
    /// `max` are taken, and never waits for one. The queue is looked at only
    /// while fewer than `max` are taken, so a worker that is told to stop was
    /// told so before it had taken `max`.
    pub fn take_methods(receiver: &mut UnboundedReceiver<Message>, max: usize) -> (r: Drained)
        ensures
            r.methods@.len() <= max,
            r.stop ==> r.methods@.len() < max,
    {
        let mut methods: Vec<Envelope> = Vec::new();
        let mut stop = false;
        let mut filling = true;
        while filling && methods.len() < max
            invariant
                methods@.len() <= max,
                stop ==> !filling && methods@.len() < max,
            decreases max - methods@.len(), if filling { 1nat } else { 0nat },
        {
            match Worker::accept(&mut methods, poll(receiver)) {
                Flow::More => {},
                Flow::Done => {
                    filling = false;
                },
                Flow::Stop => {
                    filling = false;
                    stop = true;
                },
            }
        }
        Drained { methods, stop }
    }

    /// Splits envelopes into their calls and their sinks: what stands at a
    /// position of one list belongs to the same position of the other.
    pub fn split(envelopes: Vec<Envelope>) -> (r: (Vec<Method>, Vec<ResultSender>))
        ensures
            r.0@ == calls_in(envelopes@),
            r.1@ == sinks_in(envelopes@),
    {
        let total: usize = envelopes.len();
        let mut rest = envelopes;
        let mut methods: Vec<Method> = Vec::new();
        let mut senders: Vec<ResultSender> = Vec::new();
        while rest.len() > 0
            invariant
                total == envelopes@.len(),
                rest@.len() + methods@.len() == total,
                methods@.len() == senders@.len(),
                forall|k: int| 0 <= k < rest@.len() ==> rest@[k] == envelopes@[k],
                forall|k: int|
                    0 <= k < methods@.len() ==> methods@[k] == envelopes@[total - 1 - k].0
                        && senders@[k] == envelopes@[total - 1 - k].1,
            decreases rest@.len(),
        {
            match rest.pop() {
                Some((method, sender)) => {
                    methods.push(method);
                    senders.push(sender);
                },
                None => {},
            }
        }
        let methods = reversed(methods);
        let senders = reversed(senders);
        assert(methods@ =~= calls_in(envelopes@));
        assert(senders@ =~= sinks_in(envelopes@));
        (methods, senders)
    }

    /// The `execute` call for `methods`: the script that runs them in order
    /// goes out as the parameter `code`.
    pub fn execute_method(methods: Vec<Method>) -> (r: Method)
        ensures
            r@ == execute_view(methods@),
    {
        let code = ExecuteCompiler::compile(methods);
        let mut params = Params::new();
        params.push("code", Value::String(code));
        let r = Method::new("execute", params);
        assert(r@.params =~= execute_view(methods@).params);
        r
    }

    /// Turns a group of several calls into the one `execute` call that carries
    /// them, and keeps the sinks in the order of the calls.
    pub fn process_execute(methods_with_senders: Vec<Envelope>) -> (r: (Method, Vec<ResultSender>))
        ensures
            r.0@ == execute_view(calls_in(methods_with_senders@)),
            r.1@ == sinks_in(methods_with_senders@),
    {
        let (methods, senders) = Worker::split(methods_with_senders);
        (Worker::execute_method(methods), senders)
    }

    /// The request for a group: the call itself where the group is one call,
    /// else one `execute` for all of them.
    pub fn dispatch(group: Group) -> (r: Dispatch)
        ensures
            match r {
                Dispatch::Method(method, sender) => group@ == seq![(method, sender)],
                Dispatch::Execute(execute, senders) => {
                    &&& 2 <= group@.len() <= MAX_METHODS_IN_EXECUTE
                    &&& execute@ == execute_view(calls_in(group@))
                    &&& senders@ == sinks_in(group@)
                },
            },
    {
        let mut envelopes = group.into_envelopes();
        if envelopes.len() == 1 {
            match envelopes.pop() {
                Some((method, sender)) => {
                    assert(group@ =~= seq![(method, sender)]);
                    Dispatch::Method(method, sender)
                },
                None => unreached(),
            }
        } else {
            let (execute, senders) = Worker::process_execute(envelopes);
            Dispatch::Execute(execute, senders)
        }
    }

    /// What a worker does with a head and what it drained behind it: the
    /// request for the group of them, the head first, and then a stop if the
    /// drain met the end of the queue or the signal to stop, else a pause for
    /// the interval of the credential. Nothing else makes a worker stop: how
    /// an earlier request ended is no input here.
    pub fn turn<C>(head: Envelope, drained: Drained, config: &Config<C>) -> (r: Round)
        requires
            drained.methods@.len() < MAX_METHODS_IN_EXECUTE,
        ensures
            match r {
                Round::Work { dispatch, then } => {
                    &&& then == if drained.stop {
                        Then::Stop
                    } else {
                        Then::Pause(config@.time_between_requests)
                    }
                    &&& match dispatch {
                        Dispatch::Method(method, sender) => drained.methods@.len() == 0 && (
                            method,
                            sender,
                        ) == head,
                        Dispatch::Execute(execute, senders) => {
                            &&& drained.methods@.len() > 0
                            &&& execute@ == execute_view(calls_in(seq![head] + drained.methods@))
                            &&& senders@ == sinks_in(seq![head] + drained.methods@)
                        },
                    }
                },
                Round::Exit => false,
            },
    {
        let then = if drained.stop {
            Then::Stop
        } else {
            Then::Pause(config.time_between_requests)
        };
        match Group::new(head, drained.methods) {
            Ok(group) => {
                let ghost formed = group@;
                let dispatch = Worker::dispatch(group);
                proof {
                    assert(formed[0] == head);
                    if dispatch is Method {
                        assert(formed[0] == (dispatch->Method_0, dispatch->Method_1));
                    }
                }
                Round::Work { dispatch, then }
            },
            Err(_) => unreached(),
        }
    }

    /// One turn of the worker's loop. `head` is what the wait on the queue
    /// gave. A method call becomes the head of a group, which is filled from
    /// the queue without waiting, and [`Worker::turn`] says what is done with
    /// them; anything else ends the loop. What joins the head depends on what
    /// is on the queue at that moment, but however much that is, a group is
    /// served by one request and holds at most [`MAX_METHODS_IN_EXECUTE`]
    /// calls, the head first. A worker that goes on pauses for the interval of
    /// its credential, no more and no less, before it takes the next head.
    pub fn round<C>(
        head: Option<Message>,
        receiver: &mut UnboundedReceiver<Message>,
        config: &Config<C>,
    ) -> (r: Round)
        ensures
            r matches Round::Work { then: Then::Pause(pause), .. } ==> pause
                == config@.time_between_requests,
            match head {
                Some(Message::NewMethod(method, sender)) => match r {
                    Round::Work { dispatch: Dispatch::Method(m, s), .. } => m == method && s
                        == sender,
                    Round::Work { dispatch: Dispatch::Execute(execute, senders), .. } => exists|
                        group: Seq<Envelope>,
                    |
                        {
                            &&& 2 <= group.len() <= MAX_METHODS_IN_EXECUTE
                            &&& group[0] == (method, sender)
                            &&& execute@ == execute_view(calls_in(group))
                            &&& #[trigger] sinks_in(group) == senders@
                        },
                    Round::Exit => false,
                },
                _ => r is Exit,
            },
    {
        match head {
            Some(Message::NewMethod(method, sender)) => {
                let drained = Worker::take_methods(
                    receiver,
                    (MAX_METHODS_IN_EXECUTE - 1) as usize,
                );
                let ghost group = seq![(method, sender)] + drained.methods@;
                let r = Worker::turn((method, sender), drained, config);
                proof {
                    assert(group[0] == (method, sender));
                    if r is Work && r->dispatch is Execute {
                        assert(sinks_in(group) == r->dispatch->Execute_1@);
                    }
                }
                r
            },
            _ => Round::Exit,
        }
    }

    /// Hands one outcome to its sink. Says whether the caller was still
    /// there to take it.
    pub fn send_result(sender: ResultSender, outcome: Result<Value, Error>) -> (taken: bool) {
        fulfil(sender, outcome).is_none()
    }

    /// Pairs each sink of a batch with the outcome that is its own: the sink
    /// at a position with what [`Worker::outcomes`] holds at that position.
    pub fn deliveries(
        result: Result<Vec<Result<Value, VkError>>, Error>,
        senders: Vec<ResultSender>,
    ) -> (r: Vec<(ResultSender, Result<Value, Error>)>)
        ensures
            r@.len() == senders@.len(),
            forall|i: int| 0 <= i < r@.len() ==> (#[trigger] r@[i]).0 == senders@[i],
            forall|i: int|
                0 <= i < r@.len() ==> outcome_view((#[trigger] r@[i]).1) == delivered(
                    parsed_view(result),
                    senders@.len() as nat,
                )[i],
    {
        let count: usize = senders.len();
        let outcomes = Worker::outcomes(result, count);
        let ghost wanted = delivered(parsed_view(result), count as nat);
        proof {
            assert(outcomes_view(outcomes@).len() == outcomes@.len());
            assert(wanted.len() == count);
            assert forall|i: int| 0 <= i < count implies outcome_view(#[trigger] outcomes@[i])
                == wanted[i] by {
                assert(outcomes_view(outcomes@)[i] == outcome_view(outcomes@[i]));
            }
        }
        let mut outcomes_left = reversed(outcomes);
        let mut sinks_left = reversed(senders);
        let mut pairs: Vec<(ResultSender, Result<Value, Error>)> = Vec::new();
        while sinks_left.len() > 0
            invariant
                count == senders@.len(),
                count == outcomes@.len(),
                sinks_left@.len() == outcomes_left@.len(),
                pairs@.len() + sinks_left@.len() == count,
                forall|k: int|
                    0 <= k < sinks_left@.len() ==> sinks_left@[k] == senders@[count - 1 - k],
                forall|k: int|
                    0 <= k < outcomes_left@.len() ==> outcomes_left@[k] == outcomes@[count - 1
                        - k],
                forall|i: int|
                    0 <= i < pairs@.len() ==> (#[trigger] pairs@[i]) == (
                        senders@[i],
                        outcomes@[i],
                    ),
            decreases sinks_left@.len(),
        {
            match (sinks_left.pop(), outcomes_left.pop()) {
                (Some(sender), Some(outcome)) => {
                    pairs.push((sender, outcome));
                },
                _ => {},
            }
        }
        pairs
    }

    /// Hands each sink of a batch its outcome, by position: every pair of
    /// [`Worker::deliveries`] is sent, first to last, and nothing else. No
    /// sink is left without its outcome. The result counts the callers that
    /// were still there to take theirs, and those that were gone.
    pub fn send_execute_results(
        result: Result<Vec<Result<Value, VkError>>, Error>,
        senders: Vec<ResultSender>,
    ) -> (r: Delivery)
        ensures
            r.taken + r.gone == senders@.len(),
    {
        let count: usize = senders.len();
        let mut pairs = reversed(Worker::deliveries(result, senders));
        let mut taken: usize = 0;
        let mut gone: usize = 0;
        while pairs.len() > 0
            invariant
                taken + gone + pairs@.len() == count,
            decreases pairs@.len(),
        {
            match pairs.pop() {
                Some((sender, outcome)) => {
                    if Worker::send_result(sender, outcome) {
                        taken += 1;
                    } else {
                        gone += 1;
                    }
                },
                None => {},
            }
        }
        Delivery { taken, gone }
    }
}

} // verus!
