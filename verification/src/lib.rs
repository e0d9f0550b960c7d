//! Queries over files that a SQL statement names by their locators.
//!
//! A statement may name a source by a quoted locator, `"file:///a/b.csv"` or
//! `"s3://bucket/key/b.parquet"`, where a table name would stand. This crate
//! finds the locators of a statement, takes each apart, binds it to a table
//! with a schema, registers the table in a session, tells when the statement
//! can be executed, and frames the encoded result as one columnar stream.
//!
//! The crate touches neither files nor the network and runs no statement.
//! Whatever does that reports to it: the schema that sampling a source gave,
//! the failure of a bind, the encoded batches of a result.

pub mod builder;
pub mod datafusion;
pub mod error;
pub mod helper;
pub mod modules;
pub mod object_storage;
pub mod registry;
pub mod sa_datafusion;
pub mod schema;
pub mod text;
pub mod url_root;
