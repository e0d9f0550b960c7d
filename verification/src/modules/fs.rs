//! The file system as far as paths go: taking a path apart and joining paths.

use crate::modules::utils::{
    extension, extract_path, file_name, file_stem, join_path, spec_path_extension, spec_path_file_name,
    spec_path_file_stem, spec_join_path, PathError,
};
use crate::object_storage::local_storage::part_or_error;
use crate::text::strs_view;
use vstd::prelude::*;

verus! {

/// What a file system tells about paths.
pub trait FileSystem {
    /// The final component of `path`, with its extension.
    fn get_file_name(&self, path: &str) -> (r: Result<String, PathError>)
        ensures
            part_or_error(r, spec_path_file_name(path@), "file name"@),
    ;

    /// The file name of `path` without its extension.
    fn get_file_stem(&self, path: &str) -> (r: Result<String, PathError>)
        ensures
            part_or_error(r, spec_path_file_stem(path@), "file stem"@),
    ;

    /// The extension of the file name of `path`.
    fn get_file_extension(&self, path: &str) -> (r: Result<String, PathError>)
        ensures
            part_or_error(r, spec_path_extension(path@), "extension"@),
    ;

    /// Joins `paths` into one path.
    fn join_path(&self, paths: &[&str]) -> (r: String)
        ensures
            r@ == spec_join_path(strs_view(paths@)),
    ;
}

/// The local file system.
pub struct LocalFileSystem;

impl FileSystem for LocalFileSystem {
    fn get_file_name(&self, path: &str) -> (r: Result<String, PathError>) {
        extract_path(path, file_name, "file name")
    }

    fn get_file_stem(&self, path: &str) -> (r: Result<String, PathError>) {
        extract_path(path, file_stem, "file stem")
    }

    fn get_file_extension(&self, path: &str) -> (r: Result<String, PathError>) {
        extract_path(path, extension, "extension")
    }

    fn join_path(&self, paths: &[&str]) -> (r: String) {
        join_path(paths)
    }
}

} // verus!
