//! Pipelines from a statement to its result.

pub mod ipc_stream;
pub mod pipelines;
