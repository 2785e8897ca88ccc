//! A service that answers every HTTP request with the same JSON document,
//! `{"result":"nothing"}`, and lets any origin read it.
//!
//! The crate holds the whole request-to-response rule as verified functions on
//! plain values. A server only has to hand each request to [`respond`] and
//! write back what it returns.

pub mod cors;
pub mod json;
pub mod message;
pub mod payload;
pub mod service;

pub use cors::with_cors;
pub use message::{Header, Request, Response};
pub use payload::NothingResponse;
pub use service::{fallback_handler, json_response, respond};
