//! Verified core of the authentication service: the wire format of its
//! messages, the parsing of the `Authorization` header, the read-through
//! user cache and the decisions of its HTTP handlers.

pub mod status;
pub mod wire;
pub mod client;
pub mod host;
pub mod handlers;
pub mod web;
