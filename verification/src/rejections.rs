//! HTTP-level rejection signals: transport failures that bypass the JSON-RPC
//! `error` envelope entirely.
//!
//! The JSON-RPC specification forbids responding to a notification, yet this
//! server requires every inbound message to be a true request, so a message
//! without an `id` is refused at the HTTP level (a 400) rather than answered.
//! An oversized body is likewise refused before dispatch, carrying the
//! configured ceiling for diagnostic display.

use vstd::prelude::*;
use vstd::string::StringExecFns;

use crate::envelope::Id;
use crate::numfmt::{spec_u64_dec, u64_to_dec_string};

verus! {

/// A transport-level rejection; never converted into a JSON-RPC error.
pub enum HttpRejection {
    /// The request is missing the `id` field, which this server requires.
    MissingId,
    /// The raw body exceeds the configured ceiling; carries that ceiling in
    /// bytes.
    BodyTooLarge(u64),
}

impl HttpRejection {
    /// The diagnostic text of this rejection.
    pub open spec fn spec_message(self) -> Seq<char> {
        match self {
            HttpRejection::MissingId => "The request is missing the 'id' field"@,
            HttpRejection::BodyTooLarge(limit) => "The request payload exceeds the maximum allowed of "@
                + spec_u64_dec(limit as nat) + " bytes"@,
        }
    }

    /// Renders the diagnostic text of this rejection.
    pub fn message(&self) -> (r: String)
        ensures
            r@ == self.spec_message(),
    {
        match self {
            HttpRejection::MissingId => "The request is missing the 'id' field".to_owned(),
            HttpRejection::BodyTooLarge(limit) => {
                "The request payload exceeds the maximum allowed of ".to_owned().concat(
                    u64_to_dec_string(*limit).as_str(),
                ).concat(" bytes")
            },
        }
    }
}

/// Checks the raw body size against the configured ceiling: bodies up to the
/// ceiling pass, anything larger is rejected with the ceiling attached.
pub fn check_body_size(body_bytes: u64, max_body_bytes: u64) -> (r: Result<(), HttpRejection>)
    ensures
        body_bytes <= max_body_bytes ==> r == Ok::<(), HttpRejection>(()),
        body_bytes > max_body_bytes ==> r == Err::<(), HttpRejection>(
            HttpRejection::BodyTooLarge(max_body_bytes),
        ),
{
    if body_bytes > max_body_bytes {
        Err(HttpRejection::BodyTooLarge(max_body_bytes))
    } else {
        Ok(())
    }
}

/// Requires the message to carry an `id`: a message without one is a
/// notification, which this server refuses at the HTTP level.
pub fn check_id_present(id: &Option<Id>) -> (r: Result<(), HttpRejection>)
    ensures
        id is Some ==> r == Ok::<(), HttpRejection>(()),
        id is None ==> r == Err::<(), HttpRejection>(HttpRejection::MissingId),
{
    match id {
        Some(_) => Ok(()),
        None => Err(HttpRejection::MissingId),
    }
}

} // verus!
