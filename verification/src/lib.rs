//! Secrets on their way through a chat-completion call.
//!
//! * [`bytes`]: [`SecureBytes`], a buffer that is read-only while it lives
//!   and overwritten with zeros when its life ends, never shown in a
//!   rendering, readable as text only where it is valid UTF-8.
//! * [`value`]: the untyped descriptions from which messages are built.
//! * [`message`]: [`SecureMessage`], a role and an ordered content of text
//!   and image parts, how it is built from descriptions, and the rule by
//!   which it is written into a request document.
//! * [`wire`]: the request document as plain values, ready for an encoder.
//! * [`client`]: [`SecureClient`], what it sends for a list of messages and
//!   what it makes of every way in which the exchange can end.
//! * [`error`]: [`SecureError`], every failure of the above.
//! * [`laws`]: what holds of all of them, proved.
//!
//! The library computes and decides; it does not touch the operating system
//! or the network. Its caller locks the memory that
//! [`SecureBytes::lock_region`] names, unlocks what
//! [`SecureBytes::release`] hands out, sends what
//! [`SecureClient::chat_request`] wrote, and reports how that went to
//! [`SecureClient::chat_reply`].

pub mod bytes;
pub mod client;
pub mod error;
pub mod laws;
pub mod message;
pub mod value;
pub mod wire;

pub use bytes::SecureBytes;
pub use client::{
    response_plan, ChatCompletionResponse, ErrorStatus, Exchange, PreparedRequest,
    ResponseChoice, ResponseMessage, ResponsePlan, SecureClient,
};
pub use error::{FieldName, SecureError};
pub use message::{SecureContentPart, SecureMessage};
pub use value::Value;
pub use wire::{WireContent, WireImageUrl, WireMessage, WirePart, WireRequest};
