//! Traits, generics and shared-state concurrency, with the small language
//! examples that surround them, each stated and proved with Verus.
pub mod basics;
pub mod models;
pub mod processors;
pub mod roles;
pub mod services;
pub mod students;
pub mod concurrency;

pub use concurrency::counter::ThreadSafeCounter;
pub use processors::{DataProcessor, NumberProcessor};
