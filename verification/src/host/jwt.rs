//! The claims that a token carries.

use vstd::prelude::*;

verus! {

/// The user that a token speaks for.
pub struct ClaimsUser {
    pub id: String,
    pub username: String,
}

/// The claims as plain values.
pub struct ClaimsUserView {
    pub id: Seq<char>,
    pub username: Seq<char>,
}

impl View for ClaimsUser {
    type V = ClaimsUserView;

    open spec fn view(&self) -> ClaimsUserView {
        ClaimsUserView { id: self.id@, username: self.username@ }
    }
}

} // verus!
