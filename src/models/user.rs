//! A registered user of the library.
use vstd::prelude::*;
use vstd::string::StringExecFns;

verus! {

/// A user of the library, identified by `id`.
#[derive(Debug, Clone)]
pub struct User {
    pub id: u32,
    pub username: String,
    pub is_librarian: bool,
}

impl User {
    /// A user who is not a librarian.
    pub fn new(id: u32, username: &str) -> (r: User)
        ensures
            r.id == id,
            r.username@ == username@,
            !r.is_librarian,
    {
        User { id, username: String::from_str(username), is_librarian: false }
    }
}

} // verus!
