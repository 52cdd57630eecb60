//! The dispatcher: resolves a request to its registered handler, builds the
//! failure envelope when there is none, converts a handler's outcome into a
//! response, and describes the telemetry to emit for every path.
//!
//! Handler execution itself is asynchronous I/O performed by the surrounding
//! program, so dispatch is split around that single suspension point:
//! [`RequestHandlers::dispatch`] decides whether to invoke and which metrics
//! to record first, and [`complete_dispatch`] turns the awaited outcome into
//! the response envelope and its latency observation.

use vstd::prelude::*;
use vstd::string::StringExecFns;

use crate::envelope::{Id, Request, ReservedErrorCode, Response, RpcError};
use crate::numfmt::{i64_to_dec_string, spec_i64_dec};
use crate::registry::RequestHandlers;

verus! {

/// One observation for the metrics sink, emitted at dispatch time for every
/// path so unknown-method traffic is visible without polluting per-method
/// statistics.
pub enum MetricEvent {
    /// Increment the call counter of `method`.
    MethodCall { method: String },
    /// Record the byte size of one request against `method`.
    RequestSize { method: String, bytes: usize },
    /// Record one latency observation labeled `(method, outcome)`.
    ResponseTime { method: String, outcome: String, elapsed_ns: u64 },
}

/// What the dispatcher decided for one request.
pub enum DispatchStep {
    /// No handler is registered: answer with this failure envelope.
    Respond { response: Response, metrics: Vec<MetricEvent> },
    /// Invoke handler `handler` with the request's `params`, then hand its
    /// outcome to [`complete_dispatch`].
    Invoke { handler: usize, request: Request, metrics: Vec<MetricEvent> },
}

/// The message of a method-not-found failure.
pub open spec fn spec_method_not_found_message(method: Seq<char>) -> Seq<char> {
    "'"@ + method + "' is not a supported json-rpc method on this server"@
}

/// Builds the method-not-found error for `method`.
fn method_not_found_error(method: &String) -> (r: RpcError)
    ensures
        r.code == ReservedErrorCode::MethodNotFound.spec_value(),
        r.message@ == spec_method_not_found_message(method@),
{
    let message = "'".to_owned().concat(method.as_str()).concat(
        "' is not a supported json-rpc method on this server",
    );
    RpcError::new(ReservedErrorCode::MethodNotFound, message)
}

impl RequestHandlers {
    /// Resolves `request` to its handler.
    ///
    /// When no handler is registered under the request's method, the result
    /// is a complete failure envelope carrying `MethodNotFound`, together
    /// with one latency observation against the synthetic `unknown-handler`
    /// label. When a handler exists, the result names it, returns the request
    /// for the invocation, and carries the method's call-counter and
    /// request-size observations.
    ///
    /// `elapsed_ns` is the time measured since the request was received; the
    /// clock starts before the lookup so lookup cost is attributed to the
    /// call.
    pub fn dispatch(&self, request: Request, request_size: usize, elapsed_ns: u64) -> (r:
        DispatchStep)
        requires
            self.wf(),
        ensures
            self@.contains_key(request.method@) ==> (r matches DispatchStep::Invoke {
                handler,
                request: req,
                metrics,
            } && handler == self@[request.method@] && req == request && metrics@.len() == 2 && (
            metrics@[0] matches MetricEvent::MethodCall { method } && method@ == request.method@)
                && (metrics@[1] matches MetricEvent::RequestSize { method, bytes } && method@
                == request.method@ && bytes == request_size)),
            !self@.contains_key(request.method@) ==> (r matches DispatchStep::Respond {
                response,
                metrics,
            } && (response matches Response::Failure { id, error } && id == request.id
                && error.code == ReservedErrorCode::MethodNotFound.spec_value() && error.message@
                == spec_method_not_found_message(request.method@)) && metrics@.len() == 1 && (
            metrics@[0] matches MetricEvent::ResponseTime { method, outcome, elapsed_ns: e }
                && method@ == "unknown-handler"@ && outcome@ == "unknown-handler"@ && e
                == elapsed_ns)),
    {
        match self.lookup(&request.method) {
            Some(handler) => {
                let mut metrics: Vec<MetricEvent> = Vec::new();
                metrics.push(MetricEvent::MethodCall { method: request.method.clone() });
                metrics.push(
                    MetricEvent::RequestSize {
                        method: request.method.clone(),
                        bytes: request_size,
                    },
                );
                DispatchStep::Invoke { handler, request, metrics }
            },
            None => {
                let error = method_not_found_error(&request.method);
                let response = Response::new_failure(request.id, error);
                let mut metrics: Vec<MetricEvent> = Vec::new();
                metrics.push(
                    MetricEvent::ResponseTime {
                        method: "unknown-handler".to_owned(),
                        outcome: "unknown-handler".to_owned(),
                        elapsed_ns,
                    },
                );
                DispatchStep::Respond { response, metrics }
            },
        }
    }
}

/// Turns the awaited outcome of handler `method` into the response envelope
/// and the latency observation to record: a success is labeled `success`,
/// a failure is labeled with the decimal rendering of its error code.
pub fn complete_dispatch(
    method: &String,
    id: Option<Id>,
    outcome: Result<serde_json::Value, RpcError>,
    elapsed_ns: u64,
) -> (r: (Response, MetricEvent))
    ensures
        outcome matches Ok(value) ==> r.0 == (Response::Success { id, result: value }),
        outcome matches Err(error) ==> r.0 == (Response::Failure { id, error }),
        r.1 matches MetricEvent::ResponseTime { method: m, outcome: label, elapsed_ns: e } && m@
            == method@ && e == elapsed_ns && (match outcome {
            Ok(_) => label@ == "success"@,
            Err(error) => label@ == spec_i64_dec(error.code as int),
        }),
{
    match outcome {
        Ok(value) => {
            let metric = MetricEvent::ResponseTime {
                method: method.clone(),
                outcome: "success".to_owned(),
                elapsed_ns,
            };
            (Response::new_success(id, value), metric)
        },
        Err(error) => {
            let label = i64_to_dec_string(error.code);
            let metric = MetricEvent::ResponseTime {
                method: method.clone(),
                outcome: label,
                elapsed_ns,
            };
            (Response::new_failure(id, error), metric)
        },
    }
}

/// The fixed prefix of the message reported when a handler's success value
/// cannot be encoded as a JSON value.
pub open spec fn spec_encode_failure_prefix() -> Seq<char> {
    "failed to encode json-rpc response value: "@
}

/// The uniform outcome the registry's wrapping gives every handler: the
/// handler's own error passes through verbatim, an encoded success value
/// passes through, and a failure to encode the success value becomes an
/// `InternalError`-coded error — never a success and never a fault.
pub fn wrap_handler_outcome(
    outcome: Result<Result<serde_json::Value, serde_json::Error>, RpcError>,
) -> (r: Result<serde_json::Value, RpcError>)
    ensures
        outcome matches Ok(Ok(value)) ==> r == Ok::<serde_json::Value, RpcError>(value),
        outcome matches Err(error) ==> r == Err::<serde_json::Value, RpcError>(error),
        outcome matches Ok(Err(_)) ==> r matches Err(error) && error.code
            == ReservedErrorCode::InternalError.spec_value() && error.message@.len()
            >= spec_encode_failure_prefix().len() && error.message@.subrange(
            0,
            spec_encode_failure_prefix().len() as int,
        ) == spec_encode_failure_prefix(),
{
    match outcome {
        Ok(Ok(value)) => Ok(value),
        Err(error) => Err(error),
        Ok(Err(encode_error)) => {
            let cause = encode_error.to_string();
            let message = "failed to encode json-rpc response value: ".to_owned().concat(
                cause.as_str(),
            );
            proof {
                assert(message@.subrange(0, spec_encode_failure_prefix().len() as int)
                    =~= spec_encode_failure_prefix());
            }
            Err(RpcError::new(ReservedErrorCode::InternalError, message))
        },
    }
}

} // verus!
