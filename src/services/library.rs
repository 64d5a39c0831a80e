//! A catalogue of books and a register of users, each keyed by id.
use std::collections::HashMap;
use vstd::prelude::*;
use crate::models::book::Book;
use crate::models::user::User;

verus! {

broadcast use vstd::std_specs::hash::group_hash_axioms;

/// The books and users of one library.
pub struct Library {
    books: HashMap<u32, Book>,
    users: HashMap<u32, User>,
}

impl Library {
    /// The catalogue, from id to book.
    pub closed spec fn book_map(&self) -> Map<u32, Book> {
        self.books@
    }

    /// The register, from id to user.
    pub closed spec fn user_map(&self) -> Map<u32, User> {
        self.users@
    }

    /// A library with no books and no users.
    pub fn new() -> (r: Library)
        ensures
            r.book_map() == Map::<u32, Book>::empty(),
            r.user_map() == Map::<u32, User>::empty(),
    {
        Library { books: HashMap::new(), users: HashMap::new() }
    }

    /// Files `book` under its id, in place of any book that had it.
    pub fn add_book(&mut self, book: Book)
        ensures
            final(self).book_map() == old(self).book_map().insert(book.id, book),
            final(self).user_map() == old(self).user_map(),
    {
        let id = book.id;
        self.books.insert(id, book);
    }

    /// The book filed under `id`, if there is one.
    pub fn get_book(&self, id: u32) -> (r: Option<&Book>)
        ensures
            self.book_map().contains_key(id) ==> r == Some(&self.book_map()[id]),
            !self.book_map().contains_key(id) ==> r is None,
    {
        self.books.get(&id)
    }

    /// Registers `user` under its id, in place of any user that had it.
    pub fn register_user(&mut self, user: User)
        ensures
            final(self).user_map() == old(self).user_map().insert(user.id, user),
            final(self).book_map() == old(self).book_map(),
    {
        let id = user.id;
        self.users.insert(id, user);
    }
}

} // verus!
