//! Operations over the library's records.
pub mod auth;
pub mod library;
