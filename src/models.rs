//! The records that a library keeps: books and users.
pub mod book;
pub mod user;
