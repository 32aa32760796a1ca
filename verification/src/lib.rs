//! A gateway that carries one conversation model to several chat-completion
//! backends and returns their answers as one ordered run of chat events.
//!
//! The library decides and computes; it does no input or output. What it
//! states of its functions is proved, but for the few items that call into
//! other crates, which say in their documentation what is taken on trust.
//!
//! - [`json`]: JSON values and their text.
//! - [`schema`], [`schema_laws`]: reduction of a tool's parameter schema.
//! - [`correlator`]: the names of tools by the identifier of their calls.
//! - [`types`]: the REST backend's wire shapes.
//! - [`conversion`], [`conversion_laws`]: from a conversation to a request.
//! - [`config`], [`client`], [`error`]: the REST backend's client.
//! - [`model`]: the conversation and the events.
//! - [`streaming_client`]: the gateway.
//! - [`codewhisperer`]: shapes of the enterprise assistant's interface.

pub mod client;
pub mod codewhisperer;
pub mod config;
pub mod conversion;
pub mod conversion_laws;
pub mod correlator;
pub mod error;
pub mod json;
pub mod model;
pub mod schema;
pub mod schema_laws;
pub mod streaming_client;
pub mod text;
pub mod types;
pub mod views;
