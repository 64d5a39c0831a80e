//! A book in the library's catalogue.
use vstd::prelude::*;
use vstd::string::StringExecFns;

verus! {

/// A book, identified by `id`; `published_date` counts seconds since the
/// Unix epoch, in UTC.
#[derive(Debug, Clone)]
pub struct Book {
    pub id: u32,
    pub title: String,
    pub author: String,
    pub published_date: i64,
    pub is_available: bool,
}

impl Book {
    /// A book that is available, dated `published_date`.
    pub fn new(id: u32, title: &str, author: &str, published_date: i64) -> (r: Book)
        ensures
            r.id == id,
            r.title@ == title@,
            r.author@ == author@,
            r.published_date == published_date,
            r.is_available,
    {
        Book {
            id,
            title: String::from_str(title),
            author: String::from_str(author),
            published_date,
            is_available: true,
        }
    }
}

} // verus!
