//! Decisions of a transparent WebSocket relay between a client (downstream)
//! and the Responses service (upstream).
//!
//! The crate holds no socket. A [`session::Session`] is told what happened on
//! the two connections and answers with the one thing to do next; the caller
//! performs it and reports back. Frames are forwarded without being rebuilt:
//! the only reading of their contents is the model of the first request and
//! the token usage of `response.completed` events, both for the access log.
pub mod close_code;
pub mod inspect;
pub mod json;
pub mod laws;
pub mod message;
pub mod model;
pub mod report;
pub mod session;
pub mod step_laws;
pub mod text;
