//! The query session.

pub mod context;

pub use context::SaDataFusion;
