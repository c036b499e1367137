//! What one delivery to one target came to, and the text it is reported by.
use vstd::prelude::*;
use crate::status::{is_success_status, status_line, status_line_text, success_status};

verus! {

/// The result of posting one event payload to one webhook target.
#[derive(Debug, PartialEq, Eq)]
pub enum DeliveryResult {
    /// The target answered with an HTTP status; `body` is its text, or `None`
    /// where the body could not be read.
    Responded { status: u16, body: Option<String> },
    /// The request could not be sent or no response came back.
    SendFailed { error: String },
    /// The event payload could not be encoded as JSON, so nothing was sent.
    EncodeFailed { error: String },
}

/// One target's outcome for one event.
#[derive(Debug, PartialEq, Eq)]
pub struct DeliveryOutcome {
    pub target: String,
    pub result: DeliveryResult,
}

/// Reply when the target accepted the event but its answer could not be read.
pub open spec fn unreadable_text() -> Seq<char> {
    "Internal error. The action may have executed, but I was unable to retrieve the result."@
}

/// Start of the reply when the target answered with a non-success status.
pub open spec fn rejected_prefix() -> Seq<char> {
    "Internal Error. Bridge could't connect to webhook. Resturned code: "@
}

/// Start of the reply when the request could not be sent.
pub open spec fn send_failed_prefix() -> Seq<char> {
    "Failed to send message to webhook. Error: "@
}

/// Start of the reply when the event could not be encoded.
pub open spec fn encode_failed_prefix() -> Seq<char> {
    "Failed to encode the event as JSON. Error: "@
}

/// The target took the event: it answered with a success status.
pub open spec fn accepted(r: DeliveryResult) -> bool {
    r matches DeliveryResult::Responded { status, .. } && success_status(status)
}

/// The target took the event and its answer can serve as a reply.
pub open spec fn delivered(r: DeliveryResult) -> bool {
    r matches DeliveryResult::Responded { status, body } && success_status(status) && body is Some
}

/// Text describing why a delivery gave no usable answer.
pub open spec fn failure_text(r: DeliveryResult) -> Seq<char> {
    match r {
        DeliveryResult::Responded { status, .. } => if success_status(status) {
            unreadable_text()
        } else {
            rejected_prefix() + status_line(status)
        },
        DeliveryResult::SendFailed { error } => send_failed_prefix() + error@,
        DeliveryResult::EncodeFailed { error } => encode_failed_prefix() + error@,
    }
}

/// The reply a delivery yields: the target's answer where it was delivered,
/// otherwise the text describing the failure.
pub open spec fn reply_of(r: DeliveryResult) -> Seq<char> {
    if delivered(r) {
        r->body->0@
    } else {
        failure_text(r)
    }
}

impl DeliveryResult {
    pub fn is_accepted(&self) -> (r: bool)
        ensures
            r == accepted(*self),
    {
        match self {
            DeliveryResult::Responded { status, .. } => is_success_status(*status),
            _ => false,
        }
    }

    pub fn is_delivered(&self) -> (r: bool)
        ensures
            r == delivered(*self),
    {
        match self {
            DeliveryResult::Responded { status, body } => is_success_status(*status) && body.is_some(),
            _ => false,
        }
    }

    pub fn failure_text(&self) -> (r: String)
        ensures
            r@ == failure_text(*self),
    {
        match self {
            DeliveryResult::Responded { status, .. } => if is_success_status(*status) {
                String::from_str("Internal error. The action may have executed, but I was unable to retrieve the result.")
            } else {
                let mut s = String::from_str("Internal Error. Bridge could't connect to webhook. Resturned code: ");
                let line = status_line_text(*status);
                s.append(line.as_str());
                s
            },
            DeliveryResult::SendFailed { error } => {
                let mut s = String::from_str("Failed to send message to webhook. Error: ");
                s.append(error.as_str());
                s
            },
            DeliveryResult::EncodeFailed { error } => {
                let mut s = String::from_str("Failed to encode the event as JSON. Error: ");
                s.append(error.as_str());
                s
            },
        }
    }

    pub fn reply_text(&self) -> (r: String)
        ensures
            r@ == reply_of(*self),
    {
        match self {
            DeliveryResult::Responded { status, body: Some(b) } if is_success_status(*status) => b.clone(),
            _ => self.failure_text(),
        }
    }
}

/// Every failure text says something.
pub proof fn lemma_failure_text_nonempty(r: DeliveryResult)
    ensures
        failure_text(r).len() > 0,
{
    reveal_strlit("Internal error. The action may have executed, but I was unable to retrieve the result.");
    reveal_strlit("Internal Error. Bridge could't connect to webhook. Resturned code: ");
    reveal_strlit("Failed to send message to webhook. Error: ");
    reveal_strlit("Failed to encode the event as JSON. Error: ");
}

} // verus!
