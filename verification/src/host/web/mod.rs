//! The service's JSON HTTP front end.

pub mod response;
pub mod routes;
