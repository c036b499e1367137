//! Inbound events as the platform's SDK hands them over.
use vstd::prelude::*;
use slack_morphism::events::{SlackCommandEvent, SlackPushEventCallback};
use crate::config::{expects_reply, EventKind};

verus! {

#[verifier::external_type_specification]
#[verifier::external_body]
pub struct ExSlackCommandEvent(SlackCommandEvent);

#[verifier::external_type_specification]
#[verifier::external_body]
pub struct ExSlackPushEventCallback(SlackPushEventCallback);

/// An event received from the platform's real-time connection.
pub enum InboundEvent {
    Command(SlackCommandEvent),
    Callback(SlackPushEventCallback),
}

pub open spec fn kind_of(e: &InboundEvent) -> EventKind {
    match e {
        InboundEvent::Command(_) => EventKind::Command,
        InboundEvent::Callback(_) => EventKind::Callback,
    }
}

/// Relies on `serde_json::to_vec` with the SDK's `Serialize` impls: the
/// event's JSON document as bytes, or the error's message where encoding
/// fails. Nothing is stated of the bytes.
#[verifier::external_body]
fn to_json_bytes(event: &InboundEvent) -> (r: Result<Vec<u8>, String>) {
    let encoded = match event {
        InboundEvent::Command(e) => serde_json::to_vec(e),
        InboundEvent::Callback(e) => serde_json::to_vec(e),
    };
    encoded.map_err(|err| err.to_string())
}

impl InboundEvent {
    pub fn kind(&self) -> (r: EventKind)
        ensures
            r == kind_of(self),
    {
        match self {
            InboundEvent::Command(_) => EventKind::Command,
            InboundEvent::Callback(_) => EventKind::Callback,
        }
    }

    /// Whether the transport waits for a reply to this event: only commands.
    pub fn expects_reply(&self) -> (r: bool)
        ensures
            r == expects_reply(kind_of(self)),
            r <==> self is Command,
    {
        self.kind().expects_reply()
    }

    /// The event's payload as a JSON document, or why it could not be
    /// encoded.
    pub fn payload(&self) -> Result<Vec<u8>, String> {
        to_json_bytes(self)
    }
}

} // verus!
