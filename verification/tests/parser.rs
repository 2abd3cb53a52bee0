use std::sync::Arc;
use vk_executive::{Error, Value, VkError, VkResult, Worker};

fn json(text: &str) -> Value {
    Value::from_json(text.as_bytes()).unwrap()
}

fn pairs(list: &[(&str, &str)]) -> Option<Vec<(String, String)>> {
    Some(list.iter().map(|(k, v)| (String::from(*k), String::from(*v))).collect())
}

fn too_many_requests() -> VkError {
    VkError { error_code: 6, error_msg: String::from("Too many requests"), request_params: None }
}

fn authorization_failed() -> VkError {
    VkError {
        error_code: 5,
        error_msg: String::from("User authorization failed"),
        request_params: pairs(&[("v", "5.103")]),
    }
}

fn pavel() -> Value {
    json(r#"[{"id": 1, "first_name": "Pavel", "last_name": "Durov", "is_closed": false, "can_access_closed": true}]"#)
}

#[test]
fn error_record_with_parameters() {
    let value = json(
        r#"{"error_code":5,"error_msg":"User authorization failed","request_params":[{"key":"v","value":"5.103"},{"key":"method","value":"users.get"},{"key":"v","value":"5.103"}]}"#,
    );
    assert_eq!(
        VkError::from_value(&value),
        Some(VkError {
            error_code: 5,
            error_msg: String::from("User authorization failed"),
            request_params: pairs(&[("v", "5.103"), ("method", "users.get"), ("v", "5.103")]),
        })
    );
}

#[test]
fn error_record_without_parameters_or_with_none_listed() {
    assert_eq!(
        VkError::from_value(&json(r#"{"error_code":6,"error_msg":"Too many requests"}"#)),
        Some(too_many_requests())
    );
    assert_eq!(
        VkError::from_value(&json(
            r#"{"error_code":6,"error_msg":"Too many requests","request_params":[]}"#
        )),
        Some(too_many_requests())
    );
    assert_eq!(
        VkError::from_value(&json(
            r#"{"extra":[1,2],"error_msg":"Too many requests","error_code":6}"#
        )),
        Some(too_many_requests())
    );
}

#[test]
fn error_record_with_the_largest_and_smallest_code() {
    assert_eq!(
        VkError::from_value(&json(r#"{"error_code":65535,"error_msg":""}"#)),
        Some(VkError { error_code: 65535, error_msg: String::new(), request_params: None })
    );
    assert_eq!(
        VkError::from_value(&json(r#"{"error_code":0,"error_msg":"x"}"#)),
        Some(VkError { error_code: 0, error_msg: String::from("x"), request_params: None })
    );
}

#[test]
fn what_is_no_error_record() {
    for text in [
        r#"{"error_msg":"Too many requests"}"#,
        r#"{"error_code":6}"#,
        r#"{"error_code":"6","error_msg":"Too many requests"}"#,
        r#"{"error_code":6,"error_msg":7}"#,
        r#"{"error_code":65536,"error_msg":"x"}"#,
        r#"{"error_code":-1,"error_msg":"x"}"#,
        r#"{"error_code":6.5,"error_msg":"x"}"#,
        r#"{"error_code":6,"error_msg":"x","request_params":null}"#,
        r#"{"error_code":6,"error_msg":"x","request_params":{}}"#,
        r#"{"error_code":6,"error_msg":"x","request_params":[{"key":"v"}]}"#,
        r#"{"error_code":6,"error_msg":"x","request_params":[{"key":"v","value":5}]}"#,
        r#"{"error_code":6,"error_msg":"x","request_params":[["v","5.103"]]}"#,
        r#"[6,"Too many requests"]"#,
        r#""Too many requests""#,
        r#"6"#,
        r#"null"#,
        r#"false"#,
    ] {
        assert_eq!(VkError::from_value(&json(text)), None, "{}", text);
    }
}

#[test]
fn list_of_error_records() {
    let items = match json(
        r#"[{"error_code":6,"error_msg":"Too many requests"},{"error_code":5,"error_msg":"User authorization failed","request_params":[{"key":"v","value":"5.103"}]}]"#,
    ) {
        Value::Array(items) => items,
        _ => unreachable!(),
    };
    assert_eq!(
        VkError::list_from_value(&items),
        Some(vec![too_many_requests(), authorization_failed()])
    );
    assert_eq!(VkError::list_from_value(&Vec::new()), Some(Vec::new()));
    let mut broken = items;
    broken.push(Value::Null);
    assert_eq!(VkError::list_from_value(&broken), None);
}

#[test]
fn params_from_pairs_of_an_empty_list_is_none() {
    assert_eq!(vk_executive::params_from_pairs(Vec::new()), None);
    assert_eq!(
        vk_executive::params_from_pairs(pairs(&[("b", "1"), ("a", "2"), ("b", "3")]).unwrap()),
        pairs(&[("b", "1"), ("a", "2"), ("b", "3")])
    );
}

#[test]
fn error_clone_is_equal() {
    assert_eq!(authorization_failed().clone(), authorization_failed());
    assert_eq!(too_many_requests().clone(), too_many_requests());
}

#[test]
fn envelope_with_a_response() {
    assert_eq!(
        VkResult::from_value(json(r#"{"response": [1, 2]}"#)),
        Some(VkResult::Response(json("[1, 2]")))
    );
    assert_eq!(
        VkResult::from_value(json(r#"{"response": false}"#)),
        Some(VkResult::Response(Value::Boolean(false)))
    );
    assert_eq!(
        VkResult::from_value(json(r#"{"response": null}"#)),
        Some(VkResult::Response(Value::Null))
    );
}

#[test]
fn envelope_with_an_error() {
    assert_eq!(
        VkResult::from_value(json(
            r#"{"error":{"error_code":6,"error_msg":"Too many requests","request_params":[]}}"#
        )),
        Some(VkResult::Error(too_many_requests()))
    );
}

#[test]
fn what_is_no_envelope() {
    for text in [
        r#"{}"#,
        r#"{"response": 1, "error": {"error_code":6,"error_msg":"x"}}"#,
        r#"{"response": 1, "more": 2}"#,
        r#"{"result": 1}"#,
        r#"{"Response": 1}"#,
        r#"{"error": "Too many requests"}"#,
        r#"{"error": {"error_code":6}}"#,
        r#"[{"response": 1}]"#,
        r#""response""#,
        r#"null"#,
    ] {
        assert_eq!(VkResult::from_value(json(text)), None, "{}", text);
    }
}

#[test]
fn vk_result_into_result() {
    assert_eq!(VkResult::Response(5).into_result(), Ok(5));
    assert_eq!(VkResult::Response(5).unwrap(), 5);
    assert_eq!(
        VkResult::<u8>::Error(too_many_requests()).into_result(),
        Err(too_many_requests())
    );
}

#[test]
fn parse_method_gives_the_value() {
    let outcome = Worker::parse_method(json(
        r#"{"response": [{"id": 1, "first_name": "Pavel", "last_name": "Durov", "is_closed": false, "can_access_closed": true}]}"#,
    ));
    assert_eq!(outcome.unwrap(), pavel());
}

#[test]
fn parse_method_gives_the_error_as_the_callers_own() {
    let outcome = Worker::parse_method(json(
        r#"{"error":{"error_code":5,"error_msg":"User authorization failed","request_params":[{"key":"v","value":"5.103"}]}}"#,
    ));
    match outcome {
        Err(Error::VK(error)) => assert_eq!(*error, authorization_failed()),
        other => panic!("{:?}", other),
    }
}

#[test]
fn parse_method_of_what_is_no_envelope_is_malformed() {
    for text in [r#"{}"#, r#"[]"#, r#"{"error": 1}"#, r#"{"response": 1, "x": 2}"#] {
        assert!(matches!(Worker::parse_method(json(text)), Err(Error::Malformed)), "{}", text);
    }
}

#[test]
fn parse_execute_with_one_failed_call() {
    let parsed = Worker::parse_execute(json(
        r#"{"response": ["A", false, "C", "D", "E"], "execute_errors":[{"error_code":6,"error_msg":"Too many requests","request_params":[]}]}"#,
    ))
    .unwrap();
    assert_eq!(
        parsed,
        vec![
            Ok(json(r#""A""#)),
            Err(too_many_requests()),
            Ok(json(r#""C""#)),
            Ok(json(r#""D""#)),
            Ok(json(r#""E""#)),
        ]
    );
}

#[test]
fn parse_execute_hands_the_errors_out_in_order() {
    let parsed = Worker::parse_execute(json(
        r#"{"execute_errors":[{"error_code":1,"error_msg":"first"},{"error_code":2,"error_msg":"second"},{"error_code":3,"error_msg":"third"}], "response": [false, 10, false, true, null, false, 0, ""]}"#,
    ))
    .unwrap();
    let error = |code: u16, msg: &str| VkError {
        error_code: code,
        error_msg: String::from(msg),
        request_params: None,
    };
    assert_eq!(
        parsed,
        vec![
            Err(error(1, "first")),
            Ok(json("10")),
            Err(error(2, "second")),
            Ok(Value::Boolean(true)),
            Ok(Value::Null),
            Err(error(3, "third")),
            Ok(json("0")),
            Ok(json(r#""""#)),
        ]
    );
}

#[test]
fn parse_execute_without_errors_listed() {
    let parsed = Worker::parse_execute(json(r#"{"response": [[1], {"a": 2}, 3]}"#)).unwrap();
    assert_eq!(parsed, vec![Ok(json("[1]")), Ok(json(r#"{"a": 2}"#)), Ok(json("3"))]);
    let parsed = Worker::parse_execute(json(r#"{"response": []}"#)).unwrap();
    assert_eq!(parsed, Vec::new());
    let parsed =
        Worker::parse_execute(json(r#"{"response": [1], "execute_errors": []}"#)).unwrap();
    assert_eq!(parsed, vec![Ok(json("1"))]);
}

#[test]
fn parse_execute_passes_over_errors_that_no_slot_asks_for() {
    let parsed = Worker::parse_execute(json(
        r#"{"response": [1, false], "execute_errors":[{"error_code":6,"error_msg":"Too many requests"},{"error_code":5,"error_msg":"User authorization failed","request_params":[{"key":"v","value":"5.103"}]}]}"#,
    ))
    .unwrap();
    assert_eq!(parsed, vec![Ok(json("1")), Err(too_many_requests())]);
}

#[test]
fn parse_execute_with_fewer_errors_than_false_slots_is_malformed() {
    for text in [
        r#"{"response": [false]}"#,
        r#"{"response": [1, false, false], "execute_errors":[{"error_code":6,"error_msg":"Too many requests"}]}"#,
        r#"{"response": [false], "execute_errors": []}"#,
    ] {
        assert!(matches!(Worker::parse_execute(json(text)), Err(Error::Malformed)), "{}", text);
    }
}

#[test]
fn parse_execute_does_not_take_the_singular_spelling() {
    let outcome = Worker::parse_execute(json(
        r#"{"response": [false], "execute_error":[{"error_code":6,"error_msg":"Too many requests"}]}"#,
    ));
    assert!(matches!(outcome, Err(Error::Malformed)));
}

#[test]
fn parse_execute_of_a_failed_batch_is_a_shared_error() {
    let outcome = Worker::parse_execute(json(
        r#"{"error":{"error_code":5,"error_msg":"User authorization failed","request_params":[{"key":"v","value":"5.103"}]}}"#,
    ));
    match outcome {
        Err(Error::SharedVK(error)) => assert_eq!(*error, authorization_failed()),
        other => panic!("{:?}", other),
    }
}

#[test]
fn parse_execute_of_what_is_no_batch_envelope_is_malformed() {
    for text in [
        r#"{}"#,
        r#"[]"#,
        r#"null"#,
        r#"{"response": 1}"#,
        r#"{"response": {"0": 1}}"#,
        r#"{"response": [1], "execute_errors": {}}"#,
        r#"{"response": [1], "execute_errors": [1]}"#,
        r#"{"response": [1], "execute_errors": [{"error_code": 6}]}"#,
        r#"{"response": [1], "more": 1}"#,
        r#"{"execute_errors": []}"#,
        r#"{"error": {"error_code": 6}}"#,
        r#"{"error": {"error_code":6,"error_msg":"x"}, "execute_errors": 1}"#,
    ] {
        assert!(matches!(Worker::parse_execute(json(text)), Err(Error::Malformed)), "{}", text);
    }
}

#[test]
fn assign_by_position() {
    let slots = Worker::assign(
        vec![json("1"), Value::Boolean(false), json("3")],
        vec![too_many_requests()],
    );
    assert_eq!(slots, Some(vec![Ok(json("1")), Err(too_many_requests()), Ok(json("3"))]));
    assert_eq!(Worker::assign(vec![Value::Boolean(false)], Vec::new()), None);
    assert_eq!(Worker::assign(Vec::new(), vec![too_many_requests()]), Some(Vec::new()));
}

#[test]
fn outcomes_go_to_their_positions() {
    let parsed = Ok(vec![Ok(json("1")), Err(too_many_requests()), Ok(json("3"))]);
    let outcomes = Worker::outcomes(parsed, 3);
    assert_eq!(outcomes.len(), 3);
    assert_eq!(outcomes[0].as_ref().unwrap(), &json("1"));
    match &outcomes[1] {
        Err(Error::VK(error)) => assert_eq!(**error, too_many_requests()),
        other => panic!("{:?}", other),
    }
    assert_eq!(outcomes[2].as_ref().unwrap(), &json("3"));
}

#[test]
fn outcomes_of_a_failed_batch_are_the_same_error_for_everyone() {
    let shared = Arc::new(authorization_failed());
    let outcomes = Worker::outcomes(Err(Error::SharedVK(shared.clone())), 7);
    assert_eq!(outcomes.len(), 7);
    for outcome in &outcomes {
        match outcome {
            Err(Error::SharedVK(error)) => {
                assert!(Arc::ptr_eq(error, &shared));
                assert_eq!(**error, authorization_failed());
            }
            other => panic!("{:?}", other),
        }
    }
}

#[test]
fn outcomes_of_a_malformed_answer_are_malformed_for_everyone() {
    let outcomes = Worker::outcomes(Err(Error::Malformed), 3);
    assert_eq!(outcomes.len(), 3);
    assert!(outcomes.iter().all(|outcome| matches!(outcome, Err(Error::Malformed))));
}

#[test]
fn outcomes_of_the_wrong_number_are_malformed_for_everyone() {
    let outcomes = Worker::outcomes(Ok(vec![Ok(json("1")), Ok(json("2"))]), 3);
    assert_eq!(outcomes.len(), 3);
    assert!(outcomes.iter().all(|outcome| matches!(outcome, Err(Error::Malformed))));
    let outcomes = Worker::outcomes(Ok(vec![Ok(json("1")), Ok(json("2"))]), 1);
    assert_eq!(outcomes.len(), 1);
    assert!(matches!(outcomes[0], Err(Error::Malformed)));
    assert!(Worker::outcomes(Ok(Vec::new()), 0).is_empty());
    assert!(Worker::outcomes(Err(Error::Malformed), 0).is_empty());
}

#[test]
fn a_batch_hands_each_position_what_a_single_call_would_get() {
    let batch = Worker::outcomes(
        Worker::parse_execute(json(
            r#"{"response": [[{"id": 1}], false, {"count": 0}], "execute_errors":[{"error_code":6,"error_msg":"Too many requests"}]}"#,
        )),
        3,
    );
    let singles = vec![
        Worker::parse_method(json(r#"{"response": [{"id": 1}]}"#)),
        Worker::parse_method(json(
            r#"{"error": {"error_code":6,"error_msg":"Too many requests"}}"#,
        )),
        Worker::parse_method(json(r#"{"response": {"count": 0}}"#)),
    ];
    assert_eq!(batch.len(), singles.len());
    for (from_batch, single) in batch.iter().zip(singles.iter()) {
        match (from_batch, single) {
            (Ok(a), Ok(b)) => assert_eq!(a, b),
            (Err(Error::VK(a)), Err(Error::VK(b))) => assert_eq!(a, b),
            other => panic!("{:?}", other),
        }
    }
}

#[test]
fn error_from_its_parts() {
    assert!(matches!(Error::from(too_many_requests()), Error::VK(e) if *e == too_many_requests()));
    assert!(matches!(
        Error::from(Arc::new(too_many_requests())),
        Error::SharedVK(e) if *e == too_many_requests()
    ));
    let owned = Error::from(authorization_failed());
    assert!(matches!(owned.clone(), Error::VK(e) if *e == authorization_failed()));
    assert!(matches!(Error::Malformed.clone(), Error::Malformed));
}

fn transport_failure() -> hyper::Error {
    let (sender, body) = hyper::Body::channel();
    sender.abort();
    let runtime = tokio::runtime::Builder::new_current_thread().build().unwrap();
    runtime.block_on(hyper::body::to_bytes(body)).unwrap_err()
}

#[test]
fn handle_request_reads_the_body() {
    let body = Vec::from(r#"{"response": 1}"#.as_bytes());
    assert_eq!(Worker::handle_request(Ok(body)).unwrap(), json(r#"{"response": 1}"#));
}

#[test]
fn handle_request_of_a_body_that_is_no_json_is_malformed() {
    for body in ["", "<html>502 Bad Gateway</html>", "{\"response\": ", "{} {}"] {
        let outcome = Worker::handle_request(Ok(Vec::from(body.as_bytes())));
        assert!(matches!(outcome, Err(Error::Malformed)), "{}", body);
    }
}

#[test]
fn handle_request_passes_the_transports_failure_on() {
    let cause = Arc::new(transport_failure());
    match Worker::handle_request(Err(cause.clone())) {
        Err(Error::Network(error)) => assert!(Arc::ptr_eq(&error, &cause)),
        other => panic!("{:?}", other),
    }
}

#[test]
fn handle_method_covers_every_kind_of_outcome() {
    let body = Vec::from(r#"{"response": [{"id": 1, "first_name": "Pavel", "last_name": "Durov", "is_closed": false, "can_access_closed": true}]}"#.as_bytes());
    assert_eq!(Worker::handle_method(Ok(body)).unwrap(), pavel());
    let body = Vec::from(r#"{"error":{"error_code":6,"error_msg":"Too many requests"}}"#.as_bytes());
    assert!(matches!(Worker::handle_method(Ok(body)), Err(Error::VK(e)) if *e == too_many_requests()));
    let body = Vec::from("not json".as_bytes());
    assert!(matches!(Worker::handle_method(Ok(body)), Err(Error::Malformed)));
    let body = Vec::from("[1]".as_bytes());
    assert!(matches!(Worker::handle_method(Ok(body)), Err(Error::Malformed)));
    let cause = Arc::new(transport_failure());
    assert!(matches!(
        Worker::handle_method(Err(cause.clone())),
        Err(Error::Network(error)) if Arc::ptr_eq(&error, &cause)
    ));
}

#[test]
fn handle_execute_covers_every_kind_of_outcome() {
    let body = Vec::from(r#"{"response": [1, false], "execute_errors": [{"error_code":6,"error_msg":"Too many requests"}]}"#.as_bytes());
    assert_eq!(
        Worker::handle_execute(Ok(body)).unwrap(),
        vec![Ok(json("1")), Err(too_many_requests())]
    );
    let body = Vec::from(r#"{"error":{"error_code":6,"error_msg":"Too many requests"}}"#.as_bytes());
    assert!(matches!(
        Worker::handle_execute(Ok(body)),
        Err(Error::SharedVK(e)) if *e == too_many_requests()
    ));
    let body = Vec::from("not json".as_bytes());
    assert!(matches!(Worker::handle_execute(Ok(body)), Err(Error::Malformed)));
    let cause = Arc::new(transport_failure());
    assert!(matches!(
        Worker::handle_execute(Err(cause.clone())),
        Err(Error::Network(error)) if Arc::ptr_eq(&error, &cause)
    ));
}

#[test]
fn min_user_holds_its_six_fields() {
    let user = vk_executive::types::MinUser {
        id: 1,
        first_name: String::from("Pavel"),
        last_name: String::from("Durov"),
        deactivated: None,
        is_closed: Some(false),
        can_access_closed: Some(true),
    };
    assert_eq!(user.id, 1);
    assert_eq!(user.first_name, "Pavel");
    assert_eq!(user.is_closed, Some(false));
    assert_eq!(user.deactivated, None);
}
