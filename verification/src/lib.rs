//! An in-memory store that maps text keys to text values, for many callers at
//! once.
//!
//! [`model`] says what a store holds and what each operation does to it, as
//! mathematics. [`table`] is the mapping itself, for one owner: its operations
//! are proved to do exactly what the model says. [`store`] puts one table
//! behind a lock and hands out handles to it, so that every operation of every
//! caller takes effect as a whole. [`laws`] proves how the operations answer
//! one another, and [`error`] names the one way in which the shared store
//! fails.

pub mod error;
pub mod laws;
pub mod model;
pub mod store;
pub mod table;
