//! Where the service keeps its users.

pub mod error;
pub mod users;
