//! The parts of a file path: file name, file stem and extension, and paths
//! joined into one.
//!
//! The parts are those that `std::path` finds. The result depends on the text
//! of the path alone; which characters separate components is fixed by the
//! target that the crate is compiled for.

use crate::text::strs_view;
use std::path::{Path, PathBuf};
use vstd::prelude::*;
use vstd::string::*;

verus! {

/// Why a part of a path could not be extracted.
#[derive(Debug, PartialEq, Eq)]
pub struct PathError {
    /// Says which part the path lacks.
    pub message: String,
}

/// The final component of `path`, as `std::path::Path::file_name` gives it.
pub uninterp spec fn spec_path_file_name(path: Seq<char>) -> Option<Seq<char>>;

/// The stem of the final component of `path`, as `std::path::Path::file_stem`
/// gives it.
pub uninterp spec fn spec_path_file_stem(path: Seq<char>) -> Option<Seq<char>>;

/// The extension of the final component of `path`, as
/// `std::path::Path::extension` gives it.
pub uninterp spec fn spec_path_extension(path: Seq<char>) -> Option<Seq<char>>;

/// The path `base` after `part` was pushed onto it, as
/// `std::path::PathBuf::push` leaves it.
pub uninterp spec fn spec_path_push(base: Seq<char>, part: Seq<char>) -> Seq<char>;

/// An optional string, by its characters.
pub open spec fn opt_view(o: Option<String>) -> Option<Seq<char>> {
    match o {
        Some(s) => Some(s@),
        None => None,
    }
}

/// Calls `std::path::Path::file_name` on the path with the text `path`. The
/// contract names the result and claims nothing else about it.
#[verifier::external_body]
fn path_file_name(path: &str) -> (r: Option<String>)
    ensures
        opt_view(r) == spec_path_file_name(path@),
{
    match Path::new(path).file_name() {
        Some(name) => Some(name.to_string_lossy().into_owned()),
        None => None,
    }
}

/// Calls `std::path::Path::file_stem` on the path with the text `path`. The
/// contract names the result and claims nothing else about it.
#[verifier::external_body]
fn path_file_stem(path: &str) -> (r: Option<String>)
    ensures
        opt_view(r) == spec_path_file_stem(path@),
{
    match Path::new(path).file_stem() {
        Some(stem) => Some(stem.to_string_lossy().into_owned()),
        None => None,
    }
}

/// Calls `std::path::Path::extension` on the path with the text `path`. The
/// contract names the result and claims nothing else about it.
#[verifier::external_body]
fn path_extension(path: &str) -> (r: Option<String>)
    ensures
        opt_view(r) == spec_path_extension(path@),
{
    match Path::new(path).extension() {
        Some(extension) => Some(extension.to_string_lossy().into_owned()),
        None => None,
    }
}

/// Calls `std::path::PathBuf::push` with `part` on the path with the text
/// `base` and hands out the text of the path after the call. The contract
/// names the result and claims nothing else about it.
#[verifier::external_body]
fn path_push(base: &str, part: &str) -> (r: String)
    ensures
        r@ == spec_path_push(base@, part@),
{
    let mut buf = PathBuf::from(base);
    buf.push(part);
    buf.to_string_lossy().into_owned()
}

/// The final component of `path`: the file name, or the directory name when
/// the path names a directory.
pub fn file_name(path: &str) -> (r: Option<String>)
    ensures
        opt_view(r) == spec_path_file_name(path@),
{
    path_file_name(path)
}

/// The file name of `path` without its extension.
pub fn file_stem(path: &str) -> (r: Option<String>)
    ensures
        opt_view(r) == spec_path_file_stem(path@),
{
    path_file_stem(path)
}

/// The extension of the file name of `path`, without the dot.
pub fn extension(path: &str) -> (r: Option<String>)
    ensures
        opt_view(r) == spec_path_extension(path@),
{
    path_extension(path)
}

/// Applies `extract_path_fn` to `path` and reports a missing part as an error
/// whose message names the part by `mode`.
pub fn extract_path<F: Fn(&str) -> Option<String>>(path: &str, extract_path_fn: F, mode: &str) -> (r:
    Result<String, PathError>)
    requires
        call_requires(extract_path_fn, (path,)),
    ensures
        match r {
            Ok(part) => call_ensures(extract_path_fn, (path,), Some(part)),
            Err(e) => call_ensures(extract_path_fn, (path,), None::<String>) && e.message@
                == "Path has no valid "@ + mode@,
        },
{
    match extract_path_fn(path) {
        Some(part) => Ok(part),
        None => {
            let message = String::from_str("Path has no valid ").concat(mode);
            Err(PathError { message })
        },
    }
}

/// The path made by pushing each of `parts` in turn onto the empty path.
pub open spec fn spec_join_path(parts: Seq<Seq<char>>) -> Seq<char>
    decreases parts.len(),
{
    if parts.len() == 0 {
        Seq::empty()
    } else {
        spec_path_push(spec_join_path(parts.drop_last()), parts.last())
    }
}

/// The path made by pushing `part` onto the path `joined`, which was joined
/// from the paths before it.
pub fn push_path(joined: &str, part: &str) -> (r: String)
    ensures
        r@ == spec_path_push(joined@, part@),
{
    path_push(joined, part)
}

/// Joins `paths` into one path, pushing each in turn onto the empty path.
pub fn join_path(paths: &[&str]) -> (r: String)
    ensures
        r@ == spec_join_path(strs_view(paths@)),
{
    let mut joined = String::new();
    let mut i: usize = 0;
    assert(strs_view(paths@).take(0) =~= Seq::<Seq<char>>::empty());
    while i < paths.len()
        invariant
            i <= paths@.len(),
            joined@ == spec_join_path(strs_view(paths@).take(i as int)),
        decreases paths.len() - i,
    {
        let ghost next = strs_view(paths@).take(i + 1);
        assert(next.drop_last() =~= strs_view(paths@).take(i as int));
        assert(next.last() == paths@[i as int]@);
        joined = push_path(joined.as_str(), paths[i]);
        i += 1;
    }
    assert(strs_view(paths@).take(i as int) =~= strs_view(paths@));
    joined
}

} // verus!
