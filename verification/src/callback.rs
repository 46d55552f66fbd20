//! The callback dispatcher's plan: which continuation fires, and with what.

use crate::json::{json_text, try_json_string};
use vstd::prelude::*;

verus! {

/// One answer to the UI: the two continuation names of a command and the
/// result that decides between them.
#[derive(Debug, PartialEq, Eq)]
pub struct Delivery {
    /// Names the continuation that takes a success.
    pub callback_id: String,
    /// Names the continuation that takes a failure.
    pub error_id: String,
    /// The encoded success value, or the failure's message.
    pub result: Result<String, String>,
}

/// A [`Delivery`] as plain text.
pub struct DeliveryView {
    pub callback_id: Seq<char>,
    pub error_id: Seq<char>,
    pub result: Result<Seq<char>, Seq<char>>,
}

/// The text inside a finished handler's result.
pub open spec fn result_text(result: Result<String, String>) -> Result<Seq<char>, Seq<char>> {
    match result {
        Ok(body) => Ok(body@),
        Err(message) => Err(message@),
    }
}

/// What the UI is told when a command finds no room in the mailbox.
pub open spec fn rejection_text() -> Seq<char> {
    "Failed to execute command"@
}

/// The delivery that answers a command turned away at the mailbox.
pub open spec fn rejection_of(callback_id: Seq<char>, error_id: Seq<char>) -> DeliveryView {
    DeliveryView { callback_id, error_id, result: Err(rejection_text()) }
}

impl DeliveryView {
    /// The name of the one continuation that this delivery invokes.
    pub open spec fn fires(self) -> Seq<char> {
        match self.result {
            Ok(_) => self.callback_id,
            Err(_) => self.error_id,
        }
    }

    /// The string handed to that continuation.
    pub open spec fn argument(self) -> Seq<char> {
        match self.result {
            Ok(body) => body,
            Err(message) => message,
        }
    }
}

impl View for Delivery {
    type V = DeliveryView;

    open spec fn view(&self) -> DeliveryView {
        DeliveryView {
            callback_id: self.callback_id@,
            error_id: self.error_id@,
            result: result_text(self.result),
        }
    }
}

impl Delivery {
    /// The answer for a handler that finished with `result`.
    pub fn new(callback_id: String, error_id: String, result: Result<String, String>) -> (delivery:
        Delivery)
        ensures
            delivery.callback_id == callback_id,
            delivery.error_id == error_id,
            delivery.result == result,
    {
        Delivery { callback_id, error_id, result }
    }

    /// The answer for a command that the mailbox turned away: a failure with
    /// a fixed message, routed by the command's own names.
    pub fn rejected(callback_id: String, error_id: String) -> (delivery: Delivery)
        ensures
            delivery@ == rejection_of(callback_id@, error_id@),
            delivery.callback_id == callback_id,
            delivery.error_id == error_id,
    {
        Delivery { callback_id, error_id, result: Err("Failed to execute command".to_owned()) }
    }

    /// Whether the success continuation is the one to invoke.
    pub fn is_success(&self) -> (yes: bool)
        ensures
            yes == (self.result is Ok),
            yes ==> self@.fires() == self.callback_id@,
            !yes ==> self@.fires() == self.error_id@,
    {
        self.result.is_ok()
    }

    /// The name of the continuation to invoke.
    pub fn continuation(&self) -> (name: &str)
        ensures
            name@ == self@.fires(),
    {
        match &self.result {
            Ok(_) => self.callback_id.as_str(),
            Err(_) => self.error_id.as_str(),
        }
    }

    /// The string to invoke it with.
    pub fn argument(&self) -> (text: &str)
        ensures
            text@ == self@.argument(),
    {
        match &self.result {
            Ok(body) => body.as_str(),
            Err(message) => message.as_str(),
        }
    }
}

/// What encoding a handler's result gives: the success value as JSON text,
/// a failure's message as it is, and nothing where the value cannot be
/// encoded.
pub open spec fn encoded_outcome(result: Result<serde_json::Value, String>) -> Option<
    Result<Seq<char>, Seq<char>>,
> {
    match result {
        Ok(value) => match json_text(value) {
            Some(body) => Some(Ok(body)),
            None => None,
        },
        Err(message) => Some(Err(message@)),
    }
}

/// Encodes a handler's result for delivery.
///
/// A success value becomes its JSON text and a failure keeps its message.
/// `None` comes back exactly where the success value cannot be encoded.
pub fn encode_outcome(result: Result<serde_json::Value, String>) -> (outcome: Option<
    Result<String, String>,
>)
    ensures
        outcome is Some <==> encoded_outcome(result) is Some,
        outcome is Some ==> result_text(outcome.unwrap()) == encoded_outcome(result).unwrap(),
        result matches Err(message) ==> outcome == Some(Err::<String, String>(message)),
{
    match result {
        Ok(value) => match try_json_string(&value) {
            Some(body) => Some(Ok(body)),
            None => None,
        },
        Err(message) => Some(Err(message)),
    }
}

} // verus!
