//! The path helpers, under the name the adapters use for them.

pub use crate::modules::utils::{extension, extract_path, file_name, file_stem, PathError};
