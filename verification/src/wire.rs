//! The wire command: what one inbound request decodes to, with the names of
//! the two UI-side continuations that answer it.

use crate::json::{json_member, json_parse, json_str, json_without, map_err, parse, string_of, take_member};
use vstd::prelude::*;

verus! {

/// A decoded command together with its callback routing.
#[derive(Debug)]
pub struct WireCommand<C> {
    /// The application's own command value.
    pub payload: C,
    /// Names the continuation that takes a success.
    pub callback_id: String,
    /// Names the continuation that takes a failure.
    pub error_id: String,
}

/// A command on its way to a handler, with the handle through which its answer
/// is posted back to the UI thread.
#[derive(Debug)]
pub struct Queued<C, H> {
    pub command: WireCommand<C>,
    pub handle: H,
}

/// Why a wire string is not a command.
#[derive(Debug, PartialEq, Eq)]
pub enum DecodeError {
    /// The text is not a JSON document.
    Malformed { detail: String },
    /// The document has no string field `callback`.
    MissingCallback,
    /// The document has no string field `error`.
    MissingError,
    /// The command's own fields do not make up a command of the application.
    Payload { detail: String },
}

/// The string in field `key` of `document`, if there is such a field and it
/// holds a string.
pub open spec fn field_text(document: serde_json::Value, key: Seq<char>) -> Option<Seq<char>> {
    match json_member(document, key) {
        Some(value) => json_str(value),
        None => None,
    }
}

/// What is left of `document` once the callback field is taken out.
pub open spec fn after_callback(document: serde_json::Value) -> serde_json::Value {
    json_without(document, "callback"@)
}

/// The command's own fields: `document` without the two routing fields.
pub open spec fn payload_of(document: serde_json::Value) -> serde_json::Value {
    json_without(after_callback(document), "error"@)
}

/// `outcome` is what splitting `document` into payload and routing gives.
pub open spec fn splits_to(
    document: serde_json::Value,
    outcome: Result<WireCommand<serde_json::Value>, DecodeError>,
) -> bool {
    match field_text(document, "callback"@) {
        None => outcome == Err::<WireCommand<serde_json::Value>, DecodeError>(
            DecodeError::MissingCallback,
        ),
        Some(callback_id) => match field_text(after_callback(document), "error"@) {
            None => outcome == Err::<WireCommand<serde_json::Value>, DecodeError>(
                DecodeError::MissingError,
            ),
            Some(error_id) => {
                &&& outcome matches Ok(command)
                &&& command.payload == payload_of(document)
                &&& command.callback_id@ == callback_id
                &&& command.error_id@ == error_id
            },
        },
    }
}

/// `outcome` is what decoding `text` gives.
pub open spec fn decodes_to(
    text: Seq<char>,
    outcome: Result<WireCommand<serde_json::Value>, DecodeError>,
) -> bool {
    match json_parse(text) {
        Ok(document) => splits_to(document, outcome),
        Err(e) => {
            &&& outcome matches Err(DecodeError::Malformed { detail })
            &&& vstd::string::to_string_from_display_ensures::<serde_json::Error>(&e, detail)
        },
    }
}

impl DecodeError {
    /// The text of [`DecodeError::message`].
    pub open spec fn message_text(&self) -> Seq<char> {
        match self {
            DecodeError::Malformed { detail } => detail@,
            DecodeError::MissingCallback => "missing string field `callback`"@,
            DecodeError::MissingError => "missing string field `error`"@,
            DecodeError::Payload { detail } => detail@,
        }
    }

    /// What the host is told about this error.
    pub fn message(&self) -> (text: String)
        ensures
            text@ == self.message_text(),
    {
        match self {
            DecodeError::Malformed { detail } => detail.clone(),
            DecodeError::MissingCallback => "missing string field `callback`".to_owned(),
            DecodeError::MissingError => "missing string field `error`".to_owned(),
            DecodeError::Payload { detail } => detail.clone(),
        }
    }
}

/// Takes the string field `key` out of `document`.
fn take_text(document: &mut serde_json::Value, key: &str) -> (text: Option<String>)
    ensures
        *final(document) == json_without(*old(document), key@),
        text is Some <==> field_text(*old(document), key@) is Some,
        text is Some ==> text.unwrap()@ == field_text(*old(document), key@).unwrap(),
{
    match take_member(document, key) {
        Some(value) => string_of(&value),
        None => None,
    }
}

/// Splits a parsed document into the command's own fields and its routing.
///
/// The fields `callback` and `error` must both hold strings; every other
/// field stays in the payload.
pub fn split_envelope(document: serde_json::Value) -> (outcome: Result<
    WireCommand<serde_json::Value>,
    DecodeError,
>)
    ensures
        splits_to(document, outcome),
{
    let mut rest = document;
    match take_text(&mut rest, "callback") {
        None => Err(DecodeError::MissingCallback),
        Some(callback_id) => match take_text(&mut rest, "error") {
            None => Err(DecodeError::MissingError),
            Some(error_id) => Ok(WireCommand { payload: rest, callback_id, error_id }),
        },
    }
}

/// Decodes a wire string into a command whose payload is still a JSON
/// document.
pub fn decode(text: &str) -> (outcome: Result<WireCommand<serde_json::Value>, DecodeError>)
    ensures
        decodes_to(text@, outcome),
{
    match parse(text) {
        Ok(document) => split_envelope(document),
        Err(e) => Err(DecodeError::Malformed { detail: map_err(e) }),
    }
}

} // verus!
