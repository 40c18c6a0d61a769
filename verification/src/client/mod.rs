//! The client that other services use to check a token with this service:
//! the messages it exchanges and the checks that its request extractor makes.

pub mod axum;
pub mod request;
pub mod response;

use vstd::prelude::*;

verus! {

/// Why asking the service to check a token failed.
#[derive(Clone, Copy, Debug, PartialEq, Eq, Structural)]
pub enum Error {
    /// The request could not be sent or its answer could not be read.
    Http,
    /// The answer is not a valid `VerifyTokenResponse` message.
    Decode,
}

} // verus!
