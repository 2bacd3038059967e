//! Request adapter between a chat-style JSON request and an OpenAI-compatible
//! chat-completions endpoint.
//!
//! [`Component::upstream_request`] turns the headers and the body of an
//! inbound request into the request to send upstream, and
//! [`Component::reply_to`] turns what came back into the reply to the
//! caller. Sending is left to the caller.

pub mod component;
pub mod headers;
pub mod json;
pub mod openai_payload;
pub mod settings;
pub mod status;
pub mod text;

pub use component::{Component, ComponentError, Reply, UpstreamResponse};
pub use openai_payload::{
    Message, OpenAIChoice, OpenAIPayload, OpenAIResponse, ResponseError, UpstreamRequest,
};
pub use settings::{Settings, SettingsError};
