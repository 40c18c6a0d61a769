//! What the client offers to HTTP handlers.

pub mod extractors;
