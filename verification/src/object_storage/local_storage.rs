//! The adapter for sources on the local file system.

use crate::error::SaError;
use crate::modules::utils::{
    extension, extract_path, file_name, file_stem, spec_path_extension, spec_path_file_name, spec_path_file_stem,
    PathError,
};
use crate::object_storage::storage::{
    FileFormat, SaStorage, StoreClient, StoreClientView, TableHandle, TableHandleView,
};
use crate::schema::{spec_normalize, TableSchema};
use vstd::prelude::*;
use vstd::string::*;

verus! {

/// What extracting a part of a path gives: the part, or the error that names
/// the missing part by `mode`.
pub open spec fn part_or_error(
    r: Result<String, PathError>,
    part: Option<Seq<char>>,
    mode: Seq<char>,
) -> bool {
    match r {
        Ok(s) => part == Some(s@),
        Err(e) => part.is_none() && e.message@ == "Path has no valid "@ + mode,
    }
}

/// Whether a source is bound with every column as text, given the flag that
/// asks for the inferred types; without a flag the inferred types are kept.
pub open spec fn spec_stringify(is_infer_schema: Option<bool>) -> bool {
    match is_infer_schema {
        Some(infer) => !infer,
        None => false,
    }
}

/// A source on the local file system, and the table it is bound to once
/// `init_table_provider` has run.
#[derive(Debug)]
pub struct SaLocalStorage {
    file_url: String,
    table_provider: Option<TableHandle>,
}

impl Default for SaLocalStorage {
    fn default() -> (r: SaLocalStorage)
        ensures
            r.spec_file_url() == Seq::<char>::empty(),
            r.spec_table_provider().is_none(),
    {
        SaLocalStorage { file_url: String::new(), table_provider: None }
    }
}

impl SaLocalStorage {
    /// The protocol of local sources.
    pub fn protocal() -> (r: &'static str)
        ensures
            r@ == "file"@,
    {
        "file"
    }

    /// The final component of `path`.
    pub fn get_file_name(path: &str) -> (r: Result<String, PathError>)
        ensures
            part_or_error(r, spec_path_file_name(path@), "file name"@),
    {
        extract_path(path, file_name, "file name")
    }

    /// The file name of `path` without its extension.
    pub fn get_file_stem(path: &str) -> (r: Result<String, PathError>)
        ensures
            part_or_error(r, spec_path_file_stem(path@), "file stem"@),
    {
        extract_path(path, file_stem, "file stem")
    }

    /// The extension of the file name of `path`.
    pub fn get_file_extension(path: &str) -> (r: Result<String, PathError>)
        ensures
            part_or_error(r, spec_path_extension(path@), "extension"@),
    {
        extract_path(path, extension, "extension")
    }

    /// The adapter for the file at `file_path`; its locator is `file://`
    /// followed by the path. It is not bound yet.
    pub fn new(file_path: &str) -> (r: SaLocalStorage)
        ensures
            r.spec_file_url() == "file://"@ + file_path@,
            r.spec_table_provider().is_none(),
    {
        let file_url = String::from_str(Self::protocal()).concat("://").concat(file_path);
        proof {
            reveal_strlit("file");
            reveal_strlit("://");
            reveal_strlit("file://");
            assert("file"@ + "://"@ =~= "file://"@);
        }
        SaLocalStorage { file_url, table_provider: None }
    }

    /// The adapter for the locator `file_uri`, taken as it is written. It is
    /// not bound yet.
    pub fn new_with_file_uri(file_uri: &str) -> (r: SaLocalStorage)
        ensures
            r.spec_file_url() == file_uri@,
            r.spec_table_provider().is_none(),
    {
        SaLocalStorage { file_url: String::from_str(file_uri), table_provider: None }
    }

    /// Binds the adapter to a table over its locator, read as `file_format`.
    /// `sampled` is the schema that sampling the source gave. With
    /// `is_infer_schema` absent or true the table has that schema; with false
    /// every column becomes text and keeps its name and nullability. A sample
    /// without columns is a schema inference error.
    pub fn init_table_provider(
        self,
        file_format: FileFormat,
        is_infer_schema: Option<bool>,
        sampled: &TableSchema,
    ) -> (r: Result<SaLocalStorage, SaError>)
        ensures
            match r {
                Ok(bound) => {
                    &&& sampled@.len() > 0
                    &&& bound.spec_file_url() == self.spec_file_url()
                    &&& bound.spec_table_provider() == Some(
                        TableHandleView {
                            file_url: self.spec_file_url(),
                            file_format,
                            schema: spec_normalize(sampled@, spec_stringify(is_infer_schema)),
                        },
                    )
                },
                Err(e) => e == SaError::SchemaInferenceError && sampled@.len() == 0,
            },
    {
        if sampled.is_empty() {
            return Err(SaError::SchemaInferenceError);
        }
        let stringify = match is_infer_schema {
            Some(infer) => !infer,
            None => false,
        };
        let schema = sampled.normalize(stringify);
        let table = TableHandle::new(self.file_url.as_str(), file_format, schema);
        Ok(SaLocalStorage { file_url: self.file_url, table_provider: Some(table) })
    }
}

impl Clone for SaLocalStorage {
    fn clone(&self) -> (r: SaLocalStorage)
        ensures
            r.spec_file_url() == self.spec_file_url(),
            r.spec_table_provider() == self.spec_table_provider(),
    {
        SaLocalStorage {
            file_url: self.file_url.clone(),
            table_provider: match &self.table_provider {
                Some(t) => Some(t.clone()),
                None => None,
            },
        }
    }
}

impl SaStorage for SaLocalStorage {
    open spec fn spec_protocal(&self) -> Seq<char> {
        "file"@
    }

    closed spec fn spec_file_url(&self) -> Seq<char> {
        self.file_url@
    }

    closed spec fn spec_table_provider(&self) -> Option<TableHandleView> {
        match self.table_provider {
            Some(t) => Some(t@),
            None => None,
        }
    }

    open spec fn spec_object_store(&self) -> Option<StoreClientView> {
        None
    }

    fn get_protocal(&self) -> (r: String) {
        String::from_str(Self::protocal())
    }

    fn get_table_provider(&self) -> (r: Option<TableHandle>) {
        match &self.table_provider {
            Some(t) => Some(t.clone()),
            None => None,
        }
    }

    fn get_file_url(&self) -> (r: String) {
        self.file_url.clone()
    }

    fn get_object_store(&self) -> (r: Option<StoreClient>) {
        None
    }
}

} // verus!
