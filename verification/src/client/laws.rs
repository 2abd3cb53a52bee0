//! Laws of the response parser: what holds of every batch.

use crate::client::response::{
    assigned, batch_outcomes, delivered, execute_errors_of, false_slots, lemma_false_slots_grow,
    single_outcome, slot_outcome, without_execute_errors,
};
use crate::error::ErrorView;
use crate::text::{decimal_text, decimal_u16, lemma_decimal_round_trip};
use crate::value::{lemma_key_index, member_of, Json, Member};
use crate::vk_error::{error_of, errors_of, pair_of, pairs_of, params_of, PairsView, VkErrorView};
use vstd::prelude::*;

verus! {

/// The JSON object `{"key": .., "value": ..}` of one request parameter.
pub open spec fn pair_json(pair: (Seq<char>, Seq<char>)) -> Json {
    Json::Object(
        seq![
            Member { key: "key"@, value: Json::String(pair.0) },
            Member { key: "value"@, value: Json::String(pair.1) },
        ],
    )
}

/// The JSON array of a list of request parameters.
pub open spec fn pairs_json(pairs: PairsView) -> Seq<Json> {
    Seq::new(pairs.len(), |i: int| pair_json(pairs[i]))
}

/// The JSON object that the provider writes for an error record. The member
/// `request_params` is left out where the record has no parameters.
pub open spec fn record_json(e: VkErrorView) -> Json {
    let head = seq![
        Member { key: "error_code"@, value: Json::Number(decimal_text(e.error_code as nat)) },
        Member { key: "error_msg"@, value: Json::String(e.error_msg) },
    ];
    match e.request_params {
        Some(pairs) => Json::Object(
            head.push(Member { key: "request_params"@, value: Json::Array(pairs_json(pairs)) }),
        ),
        None => Json::Object(head),
    }
}

/// The JSON array of a list of error records.
pub open spec fn records_json(errors: Seq<VkErrorView>) -> Seq<Json> {
    Seq::new(errors.len(), |i: int| record_json(errors[i]))
}

/// Whether an error record can come out of the parser: its parameters, if it
/// has any, are not an empty list.
pub open spec fn is_record(e: VkErrorView) -> bool {
    match e.request_params {
        Some(pairs) => pairs.len() > 0,
        None => true,
    }
}

/// What a slot of the `response` array holds for a call: the call's value, or
/// `false` where the call failed.
pub open spec fn slot_json(result: Result<Json, VkErrorView>) -> Json {
    match result {
        Ok(value) => value,
        Err(_) => Json::Boolean(false),
    }
}

/// The slots of a batch, one for each call.
pub open spec fn slots_json(results: Seq<Result<Json, VkErrorView>>) -> Seq<Json> {
    Seq::new(results.len(), |i: int| slot_json(results[i]))
}

/// The error records of the calls that failed, in the order of the calls.
pub open spec fn failures(results: Seq<Result<Json, VkErrorView>>) -> Seq<VkErrorView>
    decreases results.len(),
{
    if results.len() == 0 {
        Seq::empty()
    } else {
        match results.last() {
            Ok(_) => failures(results.drop_last()),
            Err(e) => failures(results.drop_last()).push(e),
        }
    }
}

/// The envelope of a batch whose calls ended as `results` say.
pub open spec fn batch_envelope(results: Seq<Result<Json, VkErrorView>>) -> Json {
    Json::Object(
        seq![
            Member { key: "response"@, value: Json::Array(slots_json(results)) },
            Member {
                key: "execute_errors"@,
                value: Json::Array(records_json(failures(results))),
            },
        ],
    )
}

/// The envelope of a single call that ended as `result` says.
pub open spec fn single_envelope(result: Result<Json, VkErrorView>) -> Json {
    match result {
        Ok(value) => Json::Object(seq![Member { key: "response"@, value }]),
        Err(e) => Json::Object(seq![Member { key: "error"@, value: record_json(e) }]),
    }
}

/// The keys of the envelopes and records are different words.
proof fn lemma_keys_differ()
    ensures
        "response"@ != "error"@,
        "response"@ != "execute_errors"@,
        "error"@ != "execute_errors"@,
        "error_code"@ != "error_msg"@,
        "error_code"@ != "request_params"@,
        "error_msg"@ != "request_params"@,
        "key"@ != "value"@,
{
    reveal_strlit("response");
    reveal_strlit("error");
    reveal_strlit("execute_errors");
    reveal_strlit("error_code");
    reveal_strlit("error_msg");
    reveal_strlit("request_params");
    reveal_strlit("key");
    reveal_strlit("value");
    assert("response"@.len() == 8);
    assert("error"@.len() == 5);
    assert("execute_errors"@.len() == 14);
    assert("error_code"@.len() == 10);
    assert("error_msg"@.len() == 9);
    assert("request_params"@.len() == 14);
    assert("key"@.len() == 3);
    assert("value"@.len() == 5);
}

/// Reading the JSON object of a request parameter gives the parameter back.
pub proof fn lemma_pair_round_trip(pair: (Seq<char>, Seq<char>))
    ensures
        pair_of(pair_json(pair)) == Some(pair),
{
    lemma_keys_differ();
    let members = pair_json(pair)->Object_0;
    lemma_key_index(members, "key"@, 0);
    lemma_key_index(members, "value"@, 1);
}

/// Reading the JSON object of an error record gives the record back.
pub proof fn lemma_record_round_trip(e: VkErrorView)
    requires
        is_record(e),
    ensures
        error_of(record_json(e)) == Some(e),
{
    lemma_keys_differ();
    lemma_decimal_round_trip(e.error_code as nat);
    let members = record_json(e)->Object_0;
    lemma_key_index(members, "error_code"@, 0);
    lemma_key_index(members, "error_msg"@, 1);
    lemma_key_index(members, "request_params"@, 2);
    match e.request_params {
        Some(pairs) => {
            let items = pairs_json(pairs);
            assert forall|i: int| 0 <= i < items.len() implies (#[trigger] pair_of(items[i]))
                == Some(pairs[i]) by {
                lemma_pair_round_trip(pairs[i]);
            }
            assert(pairs_of(items)->0 =~= pairs);
            assert(params_of(member_of(members, "request_params"@)) == Some(Some(pairs)));
        },
        None => {
            assert(member_of(members, "request_params"@) is None);
        },
    }
    assert(decimal_u16(decimal_text(e.error_code as nat)) == Some(e.error_code));
}

/// Reading the JSON array of error records gives the records back.
pub proof fn lemma_records_round_trip(errors: Seq<VkErrorView>)
    requires
        forall|i: int| 0 <= i < errors.len() ==> is_record(#[trigger] errors[i]),
    ensures
        errors_of(records_json(errors)) == Some(errors),
{
    let items = records_json(errors);
    assert forall|i: int| 0 <= i < items.len() implies (#[trigger] error_of(items[i])) == Some(
        errors[i],
    ) by {
        lemma_record_round_trip(errors[i]);
    }
    assert(errors_of(items)->0 =~= errors);
}

/// The `false` slots before a position are as many as the calls that failed
/// before it.
proof fn lemma_false_slots_are_failures(results: Seq<Result<Json, VkErrorView>>, i: int)
    requires
        0 <= i <= results.len(),
        forall|j: int|
            0 <= j < results.len() ==> (#[trigger] results[j]) != Ok::<Json, VkErrorView>(
                Json::Boolean(false),
            ),
    ensures
        false_slots(slots_json(results).take(i)) == failures(results.take(i)).len(),
    decreases i,
{
    let slots = slots_json(results);
    if i > 0 {
        lemma_false_slots_are_failures(results, i - 1);
        assert(slots.take(i).drop_last() =~= slots.take(i - 1));
        assert(results.take(i).drop_last() =~= results.take(i - 1));
        assert(slots.take(i).last() == slot_json(results[i - 1]));
        assert(results.take(i).last() == results[i - 1]);
    }
}

/// The calls that failed before a position keep their places among the
/// failures of a longer run of calls.
proof fn lemma_failures_prefix(results: Seq<Result<Json, VkErrorView>>, i: int, n: int)
    requires
        0 <= i <= n <= results.len(),
    ensures
        failures(results.take(i)).len() <= failures(results.take(n)).len(),
        forall|k: int|
            0 <= k < failures(results.take(i)).len() ==> failures(results.take(i))[k]
                == failures(results.take(n))[k],
    decreases n - i,
{
    if i < n {
        lemma_failures_prefix(results, i, n - 1);
        assert(results.take(n).drop_last() =~= results.take(n - 1));
        assert(results.take(n).last() == results[n - 1]);
    }
}

/// The call that fails at a position finds its record at the count of the
/// calls that failed before it.
proof fn lemma_failure_at(results: Seq<Result<Json, VkErrorView>>, i: int)
    requires
        0 <= i < results.len(),
        results[i] is Err,
    ensures
        failures(results.take(i)).len() < failures(results).len(),
        failures(results)[failures(results.take(i)).len() as int] == results[i]->Err_0,
{
    assert(results.take(i + 1).drop_last() =~= results.take(i));
    assert(results.take(i + 1).last() == results[i]);
    lemma_failures_prefix(results, i + 1, results.len() as int);
    assert(results.take(results.len() as int) =~= results);
}

/// Positional delivery. Take a batch whose calls ended as `results` say,
/// no value being the literal `false`. What the parser hands to position `i`
/// of the batch is what it hands to the caller of a single request that ended
/// like the call at `i`.
pub proof fn lemma_positional_delivery(results: Seq<Result<Json, VkErrorView>>, i: int)
    requires
        0 <= i < results.len(),
        forall|j: int|
            0 <= j < results.len() ==> (#[trigger] results[j]) != Ok::<Json, VkErrorView>(
                Json::Boolean(false),
            ),
        forall|j: int|
            0 <= j < results.len() && results[j] is Err ==> is_record(
                (#[trigger] results[j])->Err_0,
            ),
    ensures
        delivered(batch_outcomes(batch_envelope(results)), results.len())[i] == single_outcome(
            single_envelope(results[i]),
        ),
{
    lemma_keys_differ();
    let slots = slots_json(results);
    let errors = failures(results);
    let members = batch_envelope(results)->Object_0;
    lemma_false_slots_are_failures(results, results.len() as int);
    assert(results.take(results.len() as int) =~= results);
    assert(slots.take(slots.len() as int) =~= slots);
    lemma_false_slots_are_failures(results, i);
    if results[i] is Err {
        lemma_failure_at(results, i);
    }
    lemma_failures_records(results, results.len() as int);
    lemma_records_round_trip(errors);
    lemma_key_index(members, "execute_errors"@, 1);
    assert(execute_errors_of(members) == Some(errors));
    assert(without_execute_errors(members) =~= seq![
        Member { key: "response"@, value: Json::Array(slots) },
    ]);
    assert(assigned(slots, errors) is Some);
    let outcomes = assigned(slots, errors)->0;
    assert(batch_outcomes(batch_envelope(results)) == Ok::<
        Seq<Result<Json, VkErrorView>>,
        ErrorView,
    >(outcomes));
    assert(outcomes[i] == slot_outcome(slots, errors, i));
    assert(outcomes[i] == results[i]);
    match results[i] {
        Ok(value) => {},
        Err(e) => {
            lemma_record_round_trip(e);
        },
    }
}

/// Every record among the failures of a batch is the record of a call.
proof fn lemma_failures_records(results: Seq<Result<Json, VkErrorView>>, n: int)
    requires
        0 <= n <= results.len(),
        forall|j: int|
            0 <= j < results.len() && results[j] is Err ==> is_record(
                (#[trigger] results[j])->Err_0,
            ),
    ensures
        forall|k: int|
            0 <= k < failures(results.take(n)).len() ==> is_record(
                #[trigger] failures(results.take(n))[k],
            ),
    decreases n,
{
    if n > 0 {
        lemma_failures_records(results, n - 1);
        assert(results.take(n).drop_last() =~= results.take(n - 1));
        assert(results.take(n).last() == results[n - 1]);
        let before = failures(results.take(n - 1));
        assert forall|k: int| 0 <= k < failures(results.take(n)).len() implies is_record(
            #[trigger] failures(results.take(n))[k],
        ) by {
            if k < before.len() {
                assert(failures(results.take(n))[k] == before[k]);
            } else {
                assert(failures(results.take(n))[k] == results[n - 1]->Err_0);
            }
        }
    }
}

/// Parse round trip. An envelope that holds an array of `k` slots under
/// `response` and, under `execute_errors`, at least as many error records as
/// there are `false` slots, gives `k` outcomes. The n-th `false` slot is
/// handed the n-th error record, every other slot its own value.
pub proof fn lemma_parse_round_trip(members: Seq<Member>, items: Seq<Json>, records: Seq<Json>)
    requires
        members.len() == 2,
        ({
            let response = Member { key: "response"@, value: Json::Array(items) };
            let errors = Member { key: "execute_errors"@, value: Json::Array(records) };
            (members[0] == response && members[1] == errors) || (members[0] == errors
                && members[1] == response)
        }),
        errors_of(records) is Some,
        false_slots(items) <= records.len(),
    ensures
        batch_outcomes(Json::Object(members)) is Ok,
        batch_outcomes(Json::Object(members))->Ok_0.len() == items.len(),
        forall|i: int|
            0 <= i < items.len() ==> (#[trigger] batch_outcomes(Json::Object(members))->Ok_0[i])
                == if items[i] == Json::Boolean(false) {
                Err::<Json, VkErrorView>(errors_of(records)->0[false_slots(items.take(i)) as int])
            } else {
                Ok::<Json, VkErrorView>(items[i])
            },
{
    lemma_keys_differ();
    let at = if members[0].key == "execute_errors"@ {
        0int
    } else {
        1int
    };
    lemma_key_index(members, "execute_errors"@, at);
    assert(without_execute_errors(members) =~= seq![
        Member { key: "response"@, value: Json::Array(items) },
    ]);
    let errors = errors_of(records)->0;
    assert(errors.len() == records.len());
    assert(assigned(items, errors) is Some);
}

/// Missing errors are no errors. An envelope that holds nothing but an array
/// under `response` is read as if it listed no error records: with no `false`
/// slot, every slot is handed its own value.
pub proof fn lemma_missing_errors_are_none(items: Seq<Json>)
    requires
        false_slots(items) == 0,
    ensures
        batch_outcomes(Json::Object(seq![Member { key: "response"@, value: Json::Array(items) }]))
            == Ok::<Seq<Result<Json, VkErrorView>>, ErrorView>(
            Seq::new(items.len(), |i: int| Ok(items[i])),
        ),
{
    lemma_keys_differ();
    let members = seq![Member { key: "response"@, value: Json::Array(items) }];
    lemma_key_index(members, "execute_errors"@, 1);
    let errors = Seq::<VkErrorView>::empty();
    assert(execute_errors_of(members) == Some(errors));
    assert forall|i: int| 0 <= i < items.len() implies #[trigger] items[i] != Json::Boolean(
        false,
    ) by {
        if items[i] == Json::Boolean(false) {
            assert(items.take(i + 1).drop_last() =~= items.take(i));
            assert(items.take(i + 1).last() == items[i]);
            lemma_false_slots_grow(items, i + 1);
        }
    }
    assert(assigned(items, errors)->0 =~= Seq::new(
        items.len(),
        |i: int| Ok::<Json, VkErrorView>(items[i]),
    ));
}

/// One request of a worker by the clock: when it started, when the pause
/// behind it began and ended, and how long that pause was to last.
pub struct Paced {
    pub started: int,
    pub paused_at: int,
    pub resumed_at: int,
    pub pause: int,
}

/// Whether the requests of one worker came in the order of its loop: the
/// pause begins once the request is on its way, it lasts no less than it was
/// to last, and the next request starts only when it is over. How long a
/// request takes to be answered is no part of this.
pub open spec fn in_loop_order(run: Seq<Paced>) -> bool {
    &&& forall|n: int|
        0 <= n < run.len() ==> (#[trigger] run[n]).started <= run[n].paused_at && run[n].paused_at
            + run[n].pause <= run[n].resumed_at
    &&& forall|n: int| 0 <= n < run.len() - 1 ==> (#[trigger] run[n]).resumed_at <= run[n
        + 1].started
}

/// Pacing. Where the requests of a worker come in the order of its loop and
/// every pause is the interval of its credential, as `Worker::turn` decides,
/// two requests of that worker that are `n` requests apart start no less than
/// `n` intervals apart; two in a row, no less than one interval. This holds
/// of the starts, whether or not the earlier request has been answered.
pub proof fn lemma_pacing(run: Seq<Paced>, interval: int, i: int, j: int)
    requires
        in_loop_order(run),
        forall|n: int| 0 <= n < run.len() ==> (#[trigger] run[n]).pause == interval,
        0 <= i <= j < run.len(),
    ensures
        run[j].started - run[i].started >= (j - i) * interval,
        j == i + 1 ==> run[j].started - run[i].started >= interval,
    decreases j - i,
{
    if i < j {
        lemma_pacing(run, interval, i, j - 1);
        assert(run[j - 1].started + interval <= run[j].started);
        assert((j - i) * interval == (j - 1 - i) * interval + interval) by (nonlinear_arith);
    } else {
        assert((j - i) * interval == 0) by (nonlinear_arith)
            requires
                j - i == 0,
        ;
    }
    if j == i + 1 {
        assert((j - i) * interval == interval) by (nonlinear_arith)
            requires
                j - i == 1,
        ;
    }
}

/// One outcome each. Whatever the parser made of the answer, each of the
/// `k` callers of a request is handed exactly one outcome.
pub proof fn lemma_one_outcome_each(
    parsed: Result<Seq<Result<Json, VkErrorView>>, ErrorView>,
    k: nat,
)
    ensures
        delivered(parsed, k).len() == k,
{
}

/// Shared fan-out. Where a request for a group of `k` calls failed as a
/// whole, by the transport, by the provider or by an answer that cannot be
/// read, exactly `k` callers are handed an error, and all the same one.
pub proof fn lemma_shared_fan_out(shared: ErrorView, k: nat)
    ensures
        delivered(Err(shared), k).len() == k,
        forall|i: int|
            0 <= i < k ==> (#[trigger] delivered(Err(shared), k)[i]) == Err::<Json, ErrorView>(
                shared,
            ),
{
}

} // verus!
