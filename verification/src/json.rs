//! Bindings to the JSON value model of the wire codec.
//!
//! The dispatcher carries `params` and `result` values opaquely: it never
//! inspects their shape, so the external value type is declared here and
//! passed through untouched.

use vstd::prelude::*;

verus! {

/// Declares `serde_json::Value`, the opaque structured value that handlers
/// take as `params` and produce as `result`.
#[verifier::external_type_specification]
#[verifier::external_body]
pub struct ExValue(serde_json::Value);

/// Declares `serde_json::Error`, the error the wire codec reports when a
/// handler's native success value cannot be encoded as a JSON value.
#[verifier::external_type_specification]
#[verifier::external_body]
pub struct ExError(serde_json::Error);

} // verus!
