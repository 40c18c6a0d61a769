//! Values that HTTP handlers take from the request.

pub mod authenticate;
