//! The service's protobuf HTTP front end.

pub mod request;
pub mod response;
pub mod routes;
