//! What every storage adapter offers: its protocol, its locator, the table it
//! is bound to and, for remote storage, the client of its store.

use crate::error::SaError;
use crate::schema::{FieldView, TableSchema};
use crate::text::{chars_have_suffix, has_suffix, str_chars};
use vstd::prelude::*;
use vstd::string::*;

verus! {

/// The reader a source is read with, chosen by the end of its locator.
#[derive(Clone, Copy, Debug, PartialEq, Eq, Structural)]
pub enum FileFormat {
    /// Delimited text, `.csv`.
    Csv,
    /// The columnar binary format, `.parquet`.
    Parquet,
}

/// The format that the end of `uri` selects, if any.
pub open spec fn spec_file_format(uri: Seq<char>) -> Option<FileFormat> {
    if has_suffix(uri, ".csv"@) {
        Some(FileFormat::Csv)
    } else if has_suffix(uri, ".parquet"@) {
        Some(FileFormat::Parquet)
    } else {
        None
    }
}

/// Selects the reader for `uri`: `.csv` gives the delimited reader, `.parquet`
/// the columnar one, anything else is not supported.
pub fn file_format_of(uri: &str) -> (r: Result<FileFormat, SaError>)
    ensures
        match r {
            Ok(format) => spec_file_format(uri@) == Some(format),
            Err(e) => e == SaError::UnsupportedFileFormat && spec_file_format(uri@).is_none(),
        },
{
    let t = str_chars(uri);
    if chars_have_suffix(&t, &str_chars(".csv")) {
        Ok(FileFormat::Csv)
    } else if chars_have_suffix(&t, &str_chars(".parquet")) {
        Ok(FileFormat::Parquet)
    } else {
        Err(SaError::UnsupportedFileFormat)
    }
}

/// A table handle: the locator it reads, the reader it reads with, and its
/// schema, which is fixed when the handle is made.
#[derive(Debug, PartialEq, Eq)]
pub struct TableHandle {
    file_url: String,
    file_format: FileFormat,
    schema: TableSchema,
}

/// What a table handle holds.
pub struct TableHandleView {
    pub file_url: Seq<char>,
    pub file_format: FileFormat,
    pub schema: Seq<FieldView>,
}

impl View for TableHandle {
    type V = TableHandleView;

    closed spec fn view(&self) -> TableHandleView {
        TableHandleView {
            file_url: self.file_url@,
            file_format: self.file_format,
            schema: self.schema@,
        }
    }
}

impl TableHandle {
    /// A handle on the source at `file_url`, read as `file_format`, with the
    /// given schema.
    pub fn new(file_url: &str, file_format: FileFormat, schema: TableSchema) -> (r: TableHandle)
        ensures
            r@ == (TableHandleView { file_url: file_url@, file_format, schema: schema@ }),
    {
        TableHandle { file_url: String::from_str(file_url), file_format, schema }
    }

    /// The locator of the source.
    pub fn file_url(&self) -> (r: &str)
        ensures
            r@ == self@.file_url,
    {
        self.file_url.as_str()
    }

    /// The reader of the source.
    pub fn file_format(&self) -> (r: FileFormat)
        ensures
            r == self@.file_format,
    {
        self.file_format
    }

    /// The schema of the table.
    pub fn schema(&self) -> (r: &TableSchema)
        ensures
            r@ == self@.schema,
    {
        &self.schema
    }
}

impl Clone for TableHandle {
    fn clone(&self) -> (r: TableHandle)
        ensures
            r@ == self@,
    {
        TableHandle {
            file_url: self.file_url.clone(),
            file_format: self.file_format,
            schema: self.schema.clone(),
        }
    }
}

/// The client of a remote store: the region and the bucket it talks to.
/// Credentials are not part of it; they come from the process's surroundings.
#[derive(Debug, PartialEq, Eq)]
pub struct StoreClient {
    region: String,
    bucket: String,
}

/// What a store client holds.
pub struct StoreClientView {
    pub region: Seq<char>,
    pub bucket: Seq<char>,
}

impl View for StoreClient {
    type V = StoreClientView;

    closed spec fn view(&self) -> StoreClientView {
        StoreClientView { region: self.region@, bucket: self.bucket@ }
    }
}

impl StoreClient {
    /// The client for `bucket` in `region`.
    pub fn new(region: &str, bucket: &str) -> (r: StoreClient)
        ensures
            r@ == (StoreClientView { region: region@, bucket: bucket@ }),
    {
        StoreClient { region: String::from_str(region), bucket: String::from_str(bucket) }
    }

    /// The region of the store.
    pub fn region(&self) -> (r: &str)
        ensures
            r@ == self@.region,
    {
        self.region.as_str()
    }

    /// The bucket of the store.
    pub fn bucket(&self) -> (r: &str)
        ensures
            r@ == self@.bucket,
    {
        self.bucket.as_str()
    }
}

impl Clone for StoreClient {
    fn clone(&self) -> (r: StoreClient)
        ensures
            r@ == self@,
    {
        StoreClient { region: self.region.clone(), bucket: self.bucket.clone() }
    }
}

/// An optional table handle, by its view.
pub open spec fn opt_table_view(o: Option<TableHandle>) -> Option<TableHandleView> {
    match o {
        Some(t) => Some(t@),
        None => None,
    }
}

/// An optional store client, by its view.
pub open spec fn opt_store_view(o: Option<StoreClient>) -> Option<StoreClientView> {
    match o {
        Some(c) => Some(c@),
        None => None,
    }
}

/// A storage adapter.
pub trait SaStorage {
    /// The protocol of the adapter, without `://`.
    spec fn spec_protocal(&self) -> Seq<char>;

    /// The locator of the adapter.
    spec fn spec_file_url(&self) -> Seq<char>;

    /// The table the adapter is bound to, once it is bound.
    spec fn spec_table_provider(&self) -> Option<TableHandleView>;

    /// The store client of the adapter, if it has one.
    spec fn spec_object_store(&self) -> Option<StoreClientView>;

    fn get_protocal(&self) -> (r: String)
        ensures
            r@ == self.spec_protocal(),
    ;

    fn get_table_provider(&self) -> (r: Option<TableHandle>)
        ensures
            opt_table_view(r) == self.spec_table_provider(),
    ;

    fn get_file_url(&self) -> (r: String)
        ensures
            r@ == self.spec_file_url(),
    ;

    fn get_object_store(&self) -> (r: Option<StoreClient>)
        ensures
            opt_store_view(r) == self.spec_object_store(),
    ;
}

} // verus!
