//! End-to-end dispatch scenarios: registry lookup, the method-not-found
//! path, handler-outcome conversion, and the envelope constructors.

use std::collections::BTreeMap;

use json_rpc::dispatch::{complete_dispatch, wrap_handler_outcome, DispatchStep, MetricEvent};
use json_rpc::envelope::{Id, Request, ReservedErrorCode, Response, RpcError};
use json_rpc::registry::RequestHandlersBuilder;

fn request(method: &str, id: Option<Id>) -> Request {
    Request {
        method: method.to_string(),
        id,
        params: None,
    }
}

#[test]
fn get_status_dispatches_to_its_handler() {
    let mut builder = RequestHandlersBuilder::new();
    let duplicate = builder.register_handler("get_status".to_string(), 0);
    assert!(!duplicate);
    let handlers = builder.build();

    let step = handlers.dispatch(request("get_status", Some(Id::Num(1))), 42, 10);
    match step {
        DispatchStep::Invoke {
            handler,
            request,
            metrics,
        } => {
            assert_eq!(handler, 0);
            assert_eq!(request.method.as_str(), "get_status");
            assert_eq!(metrics.len(), 2);
            match &metrics[0] {
                MetricEvent::MethodCall { method } => assert_eq!(method.as_str(), "get_status"),
                _ => panic!("expected a call-counter event first"),
            }
            match &metrics[1] {
                MetricEvent::RequestSize { method, bytes } => {
                    assert_eq!(method.as_str(), "get_status");
                    assert_eq!(*bytes, 42);
                }
                _ => panic!("expected a request-size event second"),
            }
            let status = serde_json::to_value("node is up").unwrap();
            let (response, metric) =
                complete_dispatch(&request.method, request.id, Ok(status.clone()), 10);
            match response {
                Response::Success { id, result } => {
                    assert!(matches!(id, Some(Id::Num(1))));
                    assert_eq!(result, status);
                }
                Response::Failure { .. } => panic!("a registered method must not fail dispatch"),
            }
            match metric {
                MetricEvent::ResponseTime {
                    method,
                    outcome,
                    elapsed_ns,
                } => {
                    assert_eq!(method.as_str(), "get_status");
                    assert_eq!(outcome.as_str(), "success");
                    assert_eq!(elapsed_ns, 10);
                }
                _ => panic!("expected a latency observation"),
            }
        }
        DispatchStep::Respond { .. } => panic!("'get_status' is registered and must dispatch"),
    }
}

#[test]
fn bogus_method_yields_method_not_found() {
    let mut builder = RequestHandlersBuilder::new();
    builder.register_handler("get_status".to_string(), 0);
    let handlers = builder.build();

    let step = handlers.dispatch(request("bogus", Some(Id::Num(1))), 17, 5);
    match step {
        DispatchStep::Respond { response, metrics } => {
            match response {
                Response::Failure { id, error } => {
                    assert!(matches!(id, Some(Id::Num(1))));
                    assert_eq!(error.code, -32601);
                    assert_eq!(
                        error.message.as_str(),
                        "'bogus' is not a supported json-rpc method on this server"
                    );
                }
                Response::Success { .. } => panic!("an unknown method must not succeed"),
            }
            assert_eq!(metrics.len(), 1);
            match &metrics[0] {
                MetricEvent::ResponseTime {
                    method,
                    outcome,
                    elapsed_ns,
                } => {
                    assert_eq!(method.as_str(), "unknown-handler");
                    assert_eq!(outcome.as_str(), "unknown-handler");
                    assert_eq!(*elapsed_ns, 5);
                }
                _ => panic!("expected an unknown-handler latency observation"),
            }
        }
        DispatchStep::Invoke { .. } => panic!("an unknown method must never invoke a handler"),
    }
}

#[test]
fn second_registration_wins_with_one_entry() {
    let mut builder = RequestHandlersBuilder::new();
    assert!(!builder.register_handler("speculative_exec".to_string(), 3));
    assert!(builder.register_handler("speculative_exec".to_string(), 8));
    let handlers = builder.build();
    assert_eq!(handlers.len(), 1);
    assert_eq!(handlers.lookup(&"speculative_exec".to_string()), Some(8));
}

#[test]
fn unserializable_success_becomes_internal_error() {
    let mut bad_key_map: BTreeMap<Vec<u8>, u8> = BTreeMap::new();
    bad_key_map.insert(vec![1u8], 2u8);
    let encode_error = serde_json::to_value(&bad_key_map).unwrap_err();

    let wrapped = wrap_handler_outcome(Ok(Err(encode_error)));
    match wrapped {
        Err(error) => {
            assert_eq!(error.code, -32603);
            assert!(error
                .message
                .starts_with("failed to encode json-rpc response value: "));
        }
        Ok(_) => panic!("an encode failure must never become a success"),
    }
}

#[test]
fn handler_outcomes_pass_through_the_wrapping() {
    let value = serde_json::to_value(7u8).unwrap();
    assert_eq!(
        wrap_handler_outcome(Ok(Ok(value.clone()))).unwrap(),
        value
    );
    let own_error = RpcError::custom(-1000, "deploy unknown".to_string());
    match wrap_handler_outcome(Err(own_error)) {
        Err(error) => {
            assert_eq!(error.code, -1000);
            assert_eq!(error.message.as_str(), "deploy unknown");
        }
        Ok(_) => panic!("a handler error must pass through verbatim"),
    }
}

#[test]
fn failure_latency_is_labeled_with_the_error_code() {
    let error = RpcError::new(
        ReservedErrorCode::InvalidParams,
        "missing field".to_string(),
    );
    let (response, metric) =
        complete_dispatch(&"query_balance".to_string(), Some(Id::Num(4)), Err(error), 99);
    match response {
        Response::Failure { id, error } => {
            assert!(matches!(id, Some(Id::Num(4))));
            assert_eq!(error.code, -32602);
            assert_eq!(error.message.as_str(), "missing field");
        }
        Response::Success { .. } => panic!("an erring handler must yield a failure"),
    }
    match metric {
        MetricEvent::ResponseTime {
            method, outcome, ..
        } => {
            assert_eq!(method.as_str(), "query_balance");
            assert_eq!(outcome.as_str(), "-32602");
        }
        _ => panic!("expected a latency observation"),
    }
}

#[test]
fn envelopes_echo_what_they_were_built_from() {
    let value = serde_json::to_value(vec![1u8, 2u8]).unwrap();
    match Response::new_success(Some(Id::Str("abc".to_string())), value.clone()) {
        Response::Success { id, result } => {
            match id {
                Some(Id::Str(s)) => assert_eq!(s.as_str(), "abc"),
                _ => panic!("the id must be echoed"),
            }
            assert_eq!(result, value);
        }
        Response::Failure { .. } => panic!("new_success must build a success"),
    }
    let error = RpcError::custom(10, "custom".to_string());
    match Response::new_failure(None, error) {
        Response::Failure { id, error } => {
            assert!(id.is_none());
            assert_eq!(error.code, 10);
            assert_eq!(error.message.as_str(), "custom");
        }
        Response::Success { .. } => panic!("new_failure must build a failure"),
    }
}

#[test]
fn reserved_error_codes_match_the_specification() {
    assert_eq!(ReservedErrorCode::ParseError.value(), -32700);
    assert_eq!(ReservedErrorCode::InvalidRequest.value(), -32600);
    assert_eq!(ReservedErrorCode::MethodNotFound.value(), -32601);
    assert_eq!(ReservedErrorCode::InvalidParams.value(), -32602);
    assert_eq!(ReservedErrorCode::InternalError.value(), -32603);
}

#[test]
fn an_empty_registry_knows_no_method() {
    let handlers = RequestHandlersBuilder::new().build();
    assert_eq!(handlers.len(), 0);
    assert_eq!(handlers.lookup(&"get_status".to_string()), None);
    match handlers.dispatch(request("", Some(Id::Num(1))), 2, 0) {
        DispatchStep::Respond { response, .. } => match response {
            Response::Failure { error, .. } => {
                assert_eq!(error.code, -32601);
                assert_eq!(
                    error.message.as_str(),
                    "'' is not a supported json-rpc method on this server"
                );
            }
            Response::Success { .. } => panic!("an empty registry must not succeed"),
        },
        DispatchStep::Invoke { .. } => panic!("an empty registry has nothing to invoke"),
    }
}

#[test]
fn a_notification_id_is_echoed_as_absent_after_dispatch() {
    // Dispatch itself never requires an id: the transport rejects
    // notifications before it, but a failure found before the id is known
    // carries no id.
    let handlers = RequestHandlersBuilder::new().build();
    match handlers.dispatch(request("bogus", None), 2, 0) {
        DispatchStep::Respond { response, .. } => match response {
            Response::Failure { id, .. } => assert!(id.is_none()),
            Response::Success { .. } => panic!("an unknown method must not succeed"),
        },
        DispatchStep::Invoke { .. } => panic!("an unknown method must never invoke a handler"),
    }
}
