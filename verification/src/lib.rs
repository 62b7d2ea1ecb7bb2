//! Core of a chat-bot bridge: it models the inbound gateway events, matches
//! message text against a fixed command table, parses the two JSON payloads
//! of the remote listing API, and renders structured reply payloads.
//!
//! Everything here is verified; the transport plumbing (gateway connection,
//! HTTP requests, outbound sends) lives outside the library and exchanges
//! plain values with it.

pub mod model;
pub mod text;
pub mod router;
pub mod json;
pub mod api;
pub mod reply;
pub mod dispatch;
pub mod laws;
