//! Mention-to-response bridge: turns one inbound chat mention into one reply
//! posted back into the originating thread, by way of a single request to a
//! language-model completion endpoint.
//!
//! The crate holds the bridge's decision logic — event dispatch, request
//! construction, response classification, and the translation of failures
//! into a user-facing fallback — as verified functions. The surrounding
//! runtime (webhook server, HTTP client, task spawning) lives outside and
//! drives these functions with plain values.

pub mod body;
pub mod completion;
pub mod config;
pub mod dispatch;
pub mod response;
