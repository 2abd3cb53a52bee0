//! Typed results: what a method returns, with its fields by name.

use vstd::prelude::*;

verus! {

/// A user as `users.get` returns it where no further fields are asked for.
#[derive(Debug, PartialEq, Eq)]
pub struct MinUser {
    pub id: i64,
    pub first_name: String,
    pub last_name: String,
    /// Why the page is not there any more, if it is not.
    pub deactivated: Option<String>,
    pub is_closed: Option<bool>,
    pub can_access_closed: Option<bool>,
}

} // verus!
