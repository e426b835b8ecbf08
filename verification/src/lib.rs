//! Protocol logic for a chat-to-model bridge.
//!
//! The crate models the two conversation paths with the generative-language
//! service — the live duplex session and the one-shot batch request — as
//! plain data and verified functions: building client messages, tracking
//! turn completion, validating model-issued tool calls, ordering tool
//! responses, and classifying batch responses for the retry loop.
//! Transport, the chat gateway, and all other I/O live outside the crate
//! and exchange plain values with it.

pub mod auth;
pub mod batch;
pub mod messages;
pub mod options;
pub mod router;
pub mod schema;
pub mod session;
pub mod text;
pub mod tools;
