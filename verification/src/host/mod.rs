//! The authentication service itself: its user repository, its tokens and
//! its HTTP handlers.

pub mod jwt;
pub mod repository;
pub mod web;
