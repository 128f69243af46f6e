//! Turns a request path into a chat-completion conversation, picks the
//! canonical answer out of the candidates that come back, and maps the outcome
//! to an HTTP reply.
pub mod config;
pub mod message;
pub mod prompt;
pub mod request;
pub mod selection;
