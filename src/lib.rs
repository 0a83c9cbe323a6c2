//! A typed layer for building `select` and `insert` statements as values and
//! rendering them to SQL text.
pub mod cli;
pub mod expr;
pub mod insert;
pub mod laws;
pub mod query;
pub mod text;
