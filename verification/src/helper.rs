//! Helpers that work on raw statement text.

pub mod sql;

pub use sql::sql_parser;
