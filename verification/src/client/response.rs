//! The response parser: one envelope of the provider in, one outcome for each
//! call out.

use crate::client::worker::Worker;
use crate::error::{Error, ErrorView};
use crate::json::json_of;
use hyper::Error as HyperError;
use crate::order::reversed;
use crate::text::text_is;
use crate::value::{
    key_index, lemma_view_array, lemma_view_object, members_view, position, values_view, Json,
    Member, Value,
};
use crate::vk_error::{error_of, errors_of, errors_view, VkError, VkErrorView, VkResult};
use std::sync::Arc;
use vstd::prelude::*;

verus! {

/// What an envelope holds: the value under `response`, or the error record
/// under `error`.
pub enum Answer {
    Response(Json),
    Error(VkErrorView),
}

/// The answer that an envelope stands for: an object with one member, which is
/// either `response` with any value or `error` with an error record. Anything
/// else is no envelope.
pub open spec fn answer_of(j: Json) -> Option<Answer> {
    match j {
        Json::Object(members) => if members.len() != 1 {
            None
        } else if members[0].key == "response"@ {
            Some(Answer::Response(members[0].value))
        } else if members[0].key == "error"@ {
            match error_of(members[0].value) {
                Some(e) => Some(Answer::Error(e)),
                None => None,
            }
        } else {
            None
        },
        _ => None,
    }
}

/// What the caller of a single call is handed for the envelope `j`: the value,
/// the provider's error as the caller's own, or `Malformed`.
pub open spec fn single_outcome(j: Json) -> Result<Json, ErrorView> {
    match answer_of(j) {
        Some(Answer::Response(value)) => Ok(value),
        Some(Answer::Error(e)) => Err(ErrorView::VK(e)),
        None => Err(ErrorView::Malformed),
    }
}

/// The number of slots among `items` that hold the literal `false`.
pub open spec fn false_slots(items: Seq<Json>) -> nat
    decreases items.len(),
{
    if items.len() == 0 {
        0
    } else {
        false_slots(items.drop_last()) + if items.last() == Json::Boolean(false) {
            1nat
        } else {
            0nat
        }
    }
}

/// What the call at position `i` of a batch is handed: the value in its slot,
/// or, where the slot holds `false`, the error record whose place among
/// `errors` is the number of `false` slots before `i`.
pub open spec fn slot_outcome(items: Seq<Json>, errors: Seq<VkErrorView>, i: int) -> Result<
    Json,
    VkErrorView,
> {
    if items[i] == Json::Boolean(false) {
        Err(errors[false_slots(items.take(i)) as int])
    } else {
        Ok(items[i])
    }
}

/// The outcomes of a batch, one for each slot and in the order of the slots;
/// none if there are fewer error records than `false` slots.
pub open spec fn assigned(items: Seq<Json>, errors: Seq<VkErrorView>) -> Option<
    Seq<Result<Json, VkErrorView>>,
> {
    if false_slots(items) <= errors.len() {
        Some(Seq::new(items.len(), |i: int| slot_outcome(items, errors, i)))
    } else {
        None
    }
}

/// The error records of a batch envelope: those of the array under
/// `execute_errors`, none where the member is missing; nothing where the
/// member is no array of error records.
pub open spec fn execute_errors_of(members: Seq<Member>) -> Option<Seq<VkErrorView>> {
    let at = key_index(members, "execute_errors"@);
    if at < members.len() {
        match members[at].value {
            Json::Array(items) => errors_of(items),
            _ => None,
        }
    } else {
        Some(Seq::empty())
    }
}

/// The members of a batch envelope but for the first `execute_errors`.
pub open spec fn without_execute_errors(members: Seq<Member>) -> Seq<Member> {
    let at = key_index(members, "execute_errors"@);
    if at < members.len() {
        members.remove(at)
    } else {
        members
    }
}

/// What a batch envelope stands for. `Ok` holds one outcome for each slot of
/// the array under `response`. An envelope with `error` in place of `response`
/// stands for that error, shared by the whole batch. Anything else is
/// `Malformed`: no object, an `execute_errors` that is no array of error
/// records, a remainder that is no envelope, a `response` that is no array,
/// fewer error records than `false` slots.
pub open spec fn batch_outcomes(j: Json) -> Result<Seq<Result<Json, VkErrorView>>, ErrorView> {
    match j {
        Json::Object(members) => match (
            execute_errors_of(members),
            answer_of(Json::Object(without_execute_errors(members))),
        ) {
            (Some(errors), Some(Answer::Response(Json::Array(items)))) => match assigned(
                items,
                errors,
            ) {
                Some(outcomes) => Ok(outcomes),
                None => Err(ErrorView::Malformed),
            },
            (Some(_), Some(Answer::Error(e))) => Err(ErrorView::SharedVK(e)),
            _ => Err(ErrorView::Malformed),
        },
        _ => Err(ErrorView::Malformed),
    }
}

/// What is handed to each of `count` callers of one batch, by position. The
/// parsed outcomes go to their positions, a per-call error as the caller's
/// own. A failure of the whole batch goes to every position, and so does
/// `Malformed` where the number of outcomes is not the number of callers.
pub open spec fn delivered(
    parsed: Result<Seq<Result<Json, VkErrorView>>, ErrorView>,
    count: nat,
) -> Seq<Result<Json, ErrorView>> {
    match parsed {
        Ok(outcomes) => if outcomes.len() == count {
            Seq::new(
                count,
                |i: int|
                    match outcomes[i] {
                        Ok(value) => Ok(value),
                        Err(e) => Err(ErrorView::VK(e)),
                    },
            )
        } else {
            Seq::new(count, |i: int| Err(ErrorView::Malformed))
        },
        Err(shared) => Seq::new(count, |i: int| Err(shared)),
    }
}

/// What came back for a request: the bytes of the answer's body, or the
/// cause for which the transport failed.
pub type Received = Result<Vec<u8>, Arc<HyperError>>;

/// What a request that came back as `received` stands for, before the
/// envelope is looked at: the document in the body. A transport that failed
/// stands for its cause, a body that is no JSON text for `Malformed`.
pub open spec fn document_of(received: Received) -> Result<Json, ErrorView> {
    match received {
        Ok(body) => match json_of(body@) {
            Some(document) => Ok(document),
            None => Err(ErrorView::Malformed),
        },
        Err(cause) => Err(ErrorView::Network(*cause)),
    }
}

/// What the caller of a single call is handed for what came back.
pub open spec fn method_outcome(received: Received) -> Result<Json, ErrorView> {
    match document_of(received) {
        Ok(document) => single_outcome(document),
        Err(e) => Err(e),
    }
}

/// What the callers of a batch are handed for what came back, before it is
/// dealt out by position.
pub open spec fn execute_outcomes(received: Received) -> Result<
    Seq<Result<Json, VkErrorView>>,
    ErrorView,
> {
    match document_of(received) {
        Ok(document) => batch_outcomes(document),
        Err(e) => Err(e),
    }
}

/// The view of an outcome as a caller holds it.
pub open spec fn outcome_view(outcome: Result<Value, Error>) -> Result<Json, ErrorView> {
    match outcome {
        Ok(value) => Ok(value@),
        Err(e) => Err(e@),
    }
}

/// The views of `outcomes`, in order.
pub open spec fn outcomes_view(outcomes: Seq<Result<Value, Error>>) -> Seq<
    Result<Json, ErrorView>,
> {
    Seq::new(outcomes.len(), |i: int| outcome_view(outcomes[i]))
}

/// The view of an outcome as the parser gives it.
pub open spec fn slot_view(slot: Result<Value, VkError>) -> Result<Json, VkErrorView> {
    match slot {
        Ok(value) => Ok(value@),
        Err(e) => Err(e@),
    }
}

/// The views of `slots`, in order.
pub open spec fn slots_view(slots: Seq<Result<Value, VkError>>) -> Seq<Result<Json, VkErrorView>> {
    Seq::new(slots.len(), |i: int| slot_view(slots[i]))
}

/// The view of what the batch parser returns.
pub open spec fn parsed_view(parsed: Result<Vec<Result<Value, VkError>>, Error>) -> Result<
    Seq<Result<Json, VkErrorView>>,
    ErrorView,
> {
    match parsed {
        Ok(slots) => Ok(slots_view(slots@)),
        Err(e) => Err(e@),
    }
}

/// A longer prefix holds at least as many `false` slots.
pub proof fn lemma_false_slots_grow(items: Seq<Json>, k: int)
    requires
        0 <= k <= items.len(),
    ensures
        false_slots(items.take(k)) <= false_slots(items),
    decreases items.len() - k,
{
    if k == items.len() {
        assert(items.take(k) =~= items);
    } else {
        assert(items.drop_last().take(k) =~= items.take(k));
        lemma_false_slots_grow(items.drop_last(), k);
    }
}

impl VkResult<Value> {
    /// Reads an envelope: `{"response": ..}` or `{"error": ..}`.
    pub fn from_value(value: Value) -> (r: Option<VkResult<Value>>)
        ensures
            match r {
                Some(VkResult::Response(v)) => answer_of(value@) == Some(Answer::Response(v@)),
                Some(VkResult::Error(e)) => answer_of(value@) == Some(Answer::Error(e@)),
                None => answer_of(value@) is None,
            },
    {
        match value {
            Value::Object(members) => {
                proof {
                    lemma_view_object(members);
                }
                if members.len() != 1 {
                    return None;
                }
                let mut members = members;
                match members.pop() {
                    Some((key, payload)) => {
                        if text_is(&key, "response") {
                            Some(VkResult::Response(payload))
                        } else if text_is(&key, "error") {
                            match VkError::from_value(&payload) {
                                Some(e) => Some(VkResult::Error(e)),
                                None => None,
                            }
                        } else {
                            None
                        }
                    },
                    None => None,
                }
            },
            _ => None,
        }
    }
}

impl Worker {
    /// Reads what came back for a request as a JSON document.
    pub fn handle_request(received: Received) -> (r: Result<Value, Error>)
        ensures
            outcome_view(r) == document_of(received),
    {
        match received {
            Ok(body) => match Value::from_json(body.as_slice()) {
                Some(document) => Ok(document),
                None => Err(Error::Malformed),
            },
            Err(cause) => Err(Error::Network(cause)),
        }
    }

    /// What the caller of a single call is handed for what came back: the
    /// value, the provider's error as the caller's own, the transport's
    /// failure, or `Malformed`.
    pub fn handle_method(received: Received) -> (r: Result<Value, Error>)
        ensures
            outcome_view(r) == method_outcome(received),
    {
        match Worker::handle_request(received) {
            Ok(document) => Worker::parse_method(document),
            Err(e) => Err(e),
        }
    }

    /// What the callers of a batch are handed for what came back: one outcome
    /// for each call, or the one error that they all share.
    pub fn handle_execute(received: Received) -> (r: Result<Vec<Result<Value, VkError>>, Error>)
        ensures
            parsed_view(r) == execute_outcomes(received),
    {
        match Worker::handle_request(received) {
            Ok(document) => Worker::parse_execute(document),
            Err(e) => Err(e),
        }
    }

    /// Reads the envelope of a single call: the value for the caller, or the
    /// error that the caller is handed in its place.
    pub fn parse_method(response: Value) -> (r: Result<Value, Error>)
        ensures
            outcome_view(r) == single_outcome(response@),
    {
        match VkResult::from_value(response) {
            Some(VkResult::Response(value)) => Ok(value),
            Some(VkResult::Error(e)) => Err(Error::VK(Box::new(e))),
            None => Err(Error::Malformed),
        }
    }

    /// Gives each slot of a batch its outcome: the slot's value, or the next
    /// unused error record where the slot holds `false`.
    pub fn assign(items: Vec<Value>, errors: Vec<VkError>) -> (r: Option<
        Vec<Result<Value, VkError>>,
    >)
        ensures
            match r {
                Some(slots) => assigned(values_view(items@), errors_view(errors@)) == Some(
                    slots_view(slots@),
                ),
                None => assigned(values_view(items@), errors_view(errors@)) is None,
            },
    {
        let ghost slots = values_view(items@);
        let ghost records = errors_view(errors@);
        let total: usize = items.len();
        let supply: usize = errors.len();
        let mut rest = reversed(items);
        let mut spare = reversed(errors);
        let mut out: Vec<Result<Value, VkError>> = Vec::new();
        let mut used: usize = 0;
        while rest.len() > 0
            invariant
                slots == values_view(items@),
                records == errors_view(errors@),
                total == items@.len(),
                supply == errors@.len(),
                rest@.len() + out@.len() == total,
                forall|k: int| 0 <= k < rest@.len() ==> rest@[k] == items@[total - 1 - k],
                used + spare@.len() == supply,
                forall|k: int| 0 <= k < spare@.len() ==> spare@[k] == errors@[supply - 1 - k],
                used == false_slots(slots.take(out@.len() as int)),
                forall|j: int|
                    0 <= j < out@.len() ==> slot_view(#[trigger] out@[j]) == slot_outcome(
                        slots,
                        records,
                        j,
                    ),
            decreases rest@.len(),
        {
            let ghost at = out@.len() as int;
            proof {
                assert(slots.take(at + 1).drop_last() =~= slots.take(at));
                assert(slots.take(at + 1).last() == slots[at]);
            }
            match rest.pop() {
                Some(item) => {
                    assert(item == items@[at]);
                    if item.is_false() {
                        match spare.pop() {
                            Some(e) => {
                                assert(e == errors@[used as int]);
                                out.push(Err(e));
                                used += 1;
                            },
                            None => {
                                proof {
                                    lemma_false_slots_grow(slots, at + 1);
                                }
                                return None;
                            },
                        }
                    } else {
                        out.push(Ok(item));
                    }
                },
                None => {},
            }
        }
        proof {
            assert(slots.take(total as int) =~= slots);
            assert(assigned(slots, records)->0 =~= slots_view(out@));
        }
        Some(out)
    }

    /// Splits the envelope of a batch into the outcomes of its calls, in the
    /// order of the calls. `Err` is what every caller of the batch is handed
    /// alike: the provider's error for the whole batch, or `Malformed`.
    pub fn parse_execute(response: Value) -> (r: Result<Vec<Result<Value, VkError>>, Error>)
        ensures
            parsed_view(r) == batch_outcomes(response@),
    {
        match response {
            Value::Object(members) => {
                let ghost all = members_view(members@);
                proof {
                    lemma_view_object(members);
                }
                let mut members = members;
                let errors: Vec<VkError> = match position(&members, "execute_errors") {
                    Some(at) => {
                        let (_, listed) = members.remove(at);
                        proof {
                            assert(members_view(members@) =~= all.remove(at as int));
                        }
                        match listed {
                            Value::Array(items) => {
                                proof {
                                    lemma_view_array(items);
                                }
                                match VkError::list_from_value(&items) {
                                    Some(errors) => errors,
                                    None => {
                                        return Err(Error::Malformed);
                                    },
                                }
                            },
                            _ => {
                                return Err(Error::Malformed);
                            },
                        }
                    },
                    None => Vec::new(),
                };
                proof {
                    assert(errors_view(errors@) =~= execute_errors_of(all)->0);
                    lemma_view_object(members);
                }
                match VkResult::from_value(Value::Object(members)) {
                    Some(VkResult::Response(Value::Array(items))) => {
                        proof {
                            lemma_view_array(items);
                        }
                        match Worker::assign(items, errors) {
                            Some(slots) => Ok(slots),
                            None => Err(Error::Malformed),
                        }
                    },
                    Some(VkResult::Response(_)) => Err(Error::Malformed),
                    Some(VkResult::Error(e)) => Err(Error::SharedVK(Arc::new(e))),
                    None => Err(Error::Malformed),
                }
            },
            _ => Err(Error::Malformed),
        }
    }

    /// What each of `count` callers of one batch is handed, by position.
    pub fn outcomes(parsed: Result<Vec<Result<Value, VkError>>, Error>, count: usize) -> (r: Vec<
        Result<Value, Error>,
    >)
        ensures
            outcomes_view(r@) == delivered(parsed_view(parsed), count as nat),
    {
        let ghost wanted = delivered(parsed_view(parsed), count as nat);
        let mut out: Vec<Result<Value, Error>> = Vec::new();
        match parsed {
            Ok(slots) => {
                if slots.len() == count {
                    let ghost given = slots_view(slots@);
                    let mut rest = reversed(slots);
                    while rest.len() > 0
                        invariant
                            count == slots@.len(),
                            given == slots_view(slots@),
                            wanted.len() == count,
                            forall|i: int|
                                0 <= i < count ==> wanted[i] == match given[i] {
                                    Ok(value) => Ok::<Json, ErrorView>(value),
                                    Err(e) => Err::<Json, ErrorView>(ErrorView::VK(e)),
                                },
                            rest@.len() + out@.len() == count,
                            forall|k: int|
                                0 <= k < rest@.len() ==> rest@[k] == slots@[count - 1 - k],
                            forall|j: int|
                                0 <= j < out@.len() ==> outcome_view(#[trigger] out@[j])
                                    == wanted[j],
                        decreases rest@.len(),
                    {
                        let ghost at = out@.len() as int;
                        match rest.pop() {
                            Some(Ok(value)) => {
                                assert(given[at] == slot_view(slots@[at]));
                                out.push(Ok(value));
                            },
                            Some(Err(e)) => {
                                assert(given[at] == slot_view(slots@[at]));
                                out.push(Err(Error::VK(Box::new(e))));
                            },
                            None => {},
                        }
                    }
                } else {
                    let mut i: usize = 0;
                    while i < count
                        invariant
                            0 <= i <= count,
                            out@.len() == i,
                            forall|j: int|
                                0 <= j < i ==> outcome_view(#[trigger] out@[j]) == Err::<
                                    Json,
                                    ErrorView,
                                >(ErrorView::Malformed),
                        decreases count - i,
                    {
                        out.push(Err(Error::Malformed));
                        i += 1;
                    }
                }
            },
            Err(shared) => {
                let mut i: usize = 0;
                while i < count
                    invariant
                        0 <= i <= count,
                        out@.len() == i,
                        forall|j: int|
                            0 <= j < i ==> outcome_view(#[trigger] out@[j]) == Err::<
                                Json,
                                ErrorView,
                            >(shared@),
                    decreases count - i,
                {
                    out.push(Err(shared.clone()));
                    i += 1;
                }
            },
        }
        proof {
            assert(outcomes_view(out@) =~= wanted);
        }
        out
    }
}

} // verus!
