//! A windowed row cache over a SQLite table: a virtual list that answers
//! "what is row N?" and "how many rows are there?" while holding only a
//! bounded working set in memory.

pub mod affinity;
pub mod app;
pub mod cache;
pub mod cli;
pub mod column;
pub mod database;
pub mod error;
pub mod laws;
pub mod prelude;
pub mod present;
pub mod row;
pub mod store;
pub mod table;
pub mod text;
pub mod value;
