//! HTTP status codes as the service reports them.

use vstd::prelude::*;

verus! {

/// 400: the request is malformed.
pub const BAD_REQUEST: u16 = 400;

/// 401: the caller could not be authenticated.
pub const UNAUTHORIZED: u16 = 401;

/// 500: a service that the handler depends on failed.
pub const INTERNAL_SERVER_ERROR: u16 = 500;

/// An HTTP status code.
#[derive(Clone, Copy, Debug, PartialEq, Eq, Structural)]
pub struct StatusCode {
    pub code: u16,
}

impl StatusCode {
    /// The status with the given numeric code.
    pub fn new(code: u16) -> (s: StatusCode)
        ensures
            s.code == code,
    {
        StatusCode { code }
    }

    /// The numeric code.
    pub fn as_u16(&self) -> (code: u16)
        ensures
            code == self.code,
    {
        self.code
    }
}

} // verus!
