//! Request-execution layer for the Anthropic HTTP API: a shared error
//! taxonomy, a response classifier, an exponential backoff policy, the retry
//! decisions for single requests, and the state machine that bridges a
//! server-sent-events connection into an ordered sequence of typed events.
//!
//! Everything here is plain, verified logic. The network itself (HTTP
//! transport, SSE connection, channels and tasks) lives outside this crate
//! and feeds these functions with plain values: status codes, header bytes,
//! body text, event frames, and decode outcomes.

pub mod backoff;
pub mod classify;
pub mod errors;
pub mod json;
pub mod retry;
pub mod stream;
pub mod types;
pub mod url;
