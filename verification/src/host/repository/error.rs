//! Why a repository query failed.

use vstd::prelude::*;

verus! {

/// Why a query against the user repository failed.
#[derive(Clone, Copy, Debug, PartialEq, Eq, Structural)]
pub enum QueryError {
    /// No connection to the store could be had.
    Connection,
    /// The store refused or failed the query.
    Query,
    /// A cached entry is not a valid encoded user.
    Decode,
}

} // verus!
