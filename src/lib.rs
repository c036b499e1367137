//! Decision core of a relay that forwards chat-platform events to HTTP webhooks.
//!
//! The transport, the HTTP client and the JSON encoding of the platform's
//! events live with the caller; this crate decides which targets an event goes
//! to, in which order, and what acknowledgement text comes back.
pub mod config;
pub mod delivery;
pub mod event;
pub mod outcome;
pub mod router;
pub mod status;
