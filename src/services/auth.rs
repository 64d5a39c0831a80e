//! Who may act as a librarian.
use vstd::prelude::*;
use crate::models::user::User;

verus! {

/// Checks on what a user is allowed to do.
pub struct Auth;

impl Auth {
    /// Whether `user` holds the librarian role.
    pub fn check_librarian(user: &User) -> (r: bool)
        ensures
            r == user.is_librarian,
    {
        user.is_librarian
    }
}

} // verus!
