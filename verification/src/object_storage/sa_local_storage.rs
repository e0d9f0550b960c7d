//! Path handling for the local file system.

use crate::modules::utils::{
    extension, extract_path, file_name, file_stem, join_path, spec_path_extension, spec_path_file_name,
    spec_path_file_stem, spec_join_path, PathError,
};
use crate::object_storage::local_storage::part_or_error;
use crate::text::strs_view;
use vstd::prelude::*;

verus! {

/// The local file system.
pub struct SaLocalSystem;

impl SaLocalSystem {
    /// The final component of `path`, with its extension.
    pub fn get_file_name(&self, path: &str) -> (r: Result<String, PathError>)
        ensures
            part_or_error(r, spec_path_file_name(path@), "file name"@),
    {
        extract_path(path, file_name, "file name")
    }

    /// The file name of `path` without its extension.
    pub fn get_file_stem(&self, path: &str) -> (r: Result<String, PathError>)
        ensures
            part_or_error(r, spec_path_file_stem(path@), "file stem"@),
    {
        extract_path(path, file_stem, "file stem")
    }

    /// The extension of the file name of `path`.
    pub fn get_file_extension(&self, path: &str) -> (r: Result<String, PathError>)
        ensures
            part_or_error(r, spec_path_extension(path@), "extension"@),
    {
        extract_path(path, extension, "extension")
    }

    /// Joins `paths` into one path: each path extends what was joined so far,
    /// and one that starts at the root replaces it.
    pub fn join_path(&self, paths: &[&str]) -> (r: String)
        ensures
            r@ == spec_join_path(strs_view(paths@)),
    {
        join_path(paths)
    }
}

} // verus!
