//! Storage adapters: what a locator names, and the table it is bound to.

pub mod local_storage;
pub mod locator;
pub mod locator_path;
pub mod s3;
pub mod sa_local_storage;
pub mod storage;
pub mod utils;

pub use local_storage::SaLocalStorage;
pub use s3::SaS3;
