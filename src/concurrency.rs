//! A counter shared between threads under a lock, and the rules that decide
//! the outcome of a batch of workers that each add one to it.
pub mod batch;
pub mod counter;
