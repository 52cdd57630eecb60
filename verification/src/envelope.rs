//! The JSON-RPC envelope model: requests, responses and application-level
//! errors, with the reserved error codes of the JSON-RPC 2.0 specification.

use vstd::prelude::*;

verus! {

/// A JSON-RPC request identifier: a string or a number.
pub enum Id {
    Str(String),
    Num(i64),
}

/// A parsed JSON-RPC request. An absent `id` marks a notification.
pub struct Request {
    /// The name of the operation to invoke; case-sensitive.
    pub method: String,
    /// The request identifier, echoed in the response; absent on notifications.
    pub id: Option<Id>,
    /// The method-defined argument value; only the target handler reads it.
    pub params: Option<serde_json::Value>,
}

/// The reserved error codes of the JSON-RPC 2.0 specification.
pub enum ReservedErrorCode {
    ParseError,
    InvalidRequest,
    MethodNotFound,
    InvalidParams,
    InternalError,
}

impl ReservedErrorCode {
    /// The numeric value of this reserved code on the wire.
    pub open spec fn spec_value(self) -> i64 {
        match self {
            ReservedErrorCode::ParseError => -32700i64,
            ReservedErrorCode::InvalidRequest => -32600i64,
            ReservedErrorCode::MethodNotFound => -32601i64,
            ReservedErrorCode::InvalidParams => -32602i64,
            ReservedErrorCode::InternalError => -32603i64,
        }
    }

    /// Returns the numeric value of this reserved code.
    pub fn value(&self) -> (v: i64)
        ensures
            v == self.spec_value(),
    {
        match self {
            ReservedErrorCode::ParseError => -32700,
            ReservedErrorCode::InvalidRequest => -32600,
            ReservedErrorCode::MethodNotFound => -32601,
            ReservedErrorCode::InvalidParams => -32602,
            ReservedErrorCode::InternalError => -32603,
        }
    }
}

/// A JSON-RPC application-level error, returned inside a `Response::Failure`.
#[derive(Debug)]
pub struct RpcError {
    /// The numeric error code: a reserved code or a method-specific one.
    pub code: i64,
    /// The human-readable message.
    pub message: String,
}

impl RpcError {
    /// Builds an error carrying a reserved code.
    pub fn new(code: ReservedErrorCode, message: String) -> (r: RpcError)
        ensures
            r.code == code.spec_value(),
            r.message == message,
    {
        RpcError { code: code.value(), message }
    }

    /// Builds an error carrying a method-specific code.
    pub fn custom(code: i64, message: String) -> (r: RpcError)
        ensures
            r.code == code,
            r.message == message,
    {
        RpcError { code, message }
    }
}

/// A JSON-RPC response envelope: the outcome of one dispatched request.
pub enum Response {
    /// The handler succeeded; `result` is its encoded value.
    Success { id: Option<Id>, result: serde_json::Value },
    /// Dispatch or the handler failed; `id` is absent when the failure was
    /// discovered before the request's identifier was known.
    Failure { id: Option<Id>, error: RpcError },
}

impl Response {
    /// Builds a success envelope echoing the request's identifier.
    pub fn new_success(id: Option<Id>, result: serde_json::Value) -> (r: Response)
        ensures
            r == (Response::Success { id, result }),
    {
        Response::Success { id, result }
    }

    /// Builds a failure envelope echoing the request's identifier.
    pub fn new_failure(id: Option<Id>, error: RpcError) -> (r: Response)
        ensures
            r == (Response::Failure { id, error }),
    {
        Response::Failure { id, error }
    }
}

/// A success envelope carries exactly the identifier and result it was built
/// from, and a failure envelope exactly the identifier and error: building an
/// envelope loses nothing.
pub proof fn lemma_envelope_round_trip(
    id: Option<Id>,
    result: serde_json::Value,
    error: RpcError,
)
    ensures
        (Response::Success { id, result }) matches Response::Success {
            id: rid,
            result: rresult,
        } && rid == id && rresult == result,
        (Response::Failure { id, error }) matches Response::Failure {
            id: fid,
            error: ferror,
        } && fid == id && ferror == error,
{
}

} // verus!
