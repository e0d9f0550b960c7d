//! The options of the two readers, and what a reader's options can do with a
//! session: register a file as a table, and read a file.
//!
//! Neither touches the file. The schema that sampling the file gave is handed
//! in by the caller.

use crate::datafusion::context::SessionState;
use crate::error::SaError;
use crate::object_storage::storage::{FileFormat, TableHandle, TableHandleView};
use crate::schema::TableSchema;
use vstd::prelude::*;
use vstd::string::*;

verus! {

/// Options of the delimited reader.
#[derive(Debug)]
pub struct CsvReadOptions {
    /// Whether the first line names the columns.
    pub has_header: bool,
    /// The byte between two values.
    pub delimiter: u8,
    /// The end of the names of the files that are read.
    pub file_extension: String,
}

/// What the options of the delimited reader hold.
pub struct CsvReadOptionsView {
    pub has_header: bool,
    pub delimiter: u8,
    pub file_extension: Seq<char>,
}

impl View for CsvReadOptions {
    type V = CsvReadOptionsView;

    open spec fn view(&self) -> CsvReadOptionsView {
        CsvReadOptionsView {
            has_header: self.has_header,
            delimiter: self.delimiter,
            file_extension: self.file_extension@,
        }
    }
}

impl Default for CsvReadOptions {
    /// A header line, values separated by commas, files ending in `.csv`.
    fn default() -> (r: CsvReadOptions)
        ensures
            r@ == (CsvReadOptionsView {
                has_header: true,
                delimiter: 44u8,
                file_extension: ".csv"@,
            }),
    {
        CsvReadOptions { has_header: true, delimiter: 44u8, file_extension: String::from_str(".csv") }
    }
}

impl Clone for CsvReadOptions {
    fn clone(&self) -> (r: CsvReadOptions)
        ensures
            r@ == self@,
    {
        CsvReadOptions {
            has_header: self.has_header,
            delimiter: self.delimiter,
            file_extension: self.file_extension.clone(),
        }
    }
}

/// Options of the columnar reader.
#[derive(Debug)]
pub struct ParquetReadOptions {
    /// The end of the names of the files that are read.
    pub file_extension: String,
    /// Whether row groups are pruned by their statistics; the session decides
    /// where nothing is set.
    pub parquet_pruning: Option<bool>,
    /// Whether metadata embedded in the file schema is skipped; the session
    /// decides where nothing is set.
    pub skip_metadata: Option<bool>,
}

/// What the options of the columnar reader hold.
pub struct ParquetReadOptionsView {
    pub file_extension: Seq<char>,
    pub parquet_pruning: Option<bool>,
    pub skip_metadata: Option<bool>,
}

impl View for ParquetReadOptions {
    type V = ParquetReadOptionsView;

    open spec fn view(&self) -> ParquetReadOptionsView {
        ParquetReadOptionsView {
            file_extension: self.file_extension@,
            parquet_pruning: self.parquet_pruning,
            skip_metadata: self.skip_metadata,
        }
    }
}

impl Default for ParquetReadOptions {
    /// Files ending in `.parquet`, everything else left to the session.
    fn default() -> (r: ParquetReadOptions)
        ensures
            r@ == (ParquetReadOptionsView {
                file_extension: ".parquet"@,
                parquet_pruning: None,
                skip_metadata: None,
            }),
    {
        ParquetReadOptions {
            file_extension: String::from_str(".parquet"),
            parquet_pruning: None,
            skip_metadata: None,
        }
    }
}

impl Clone for ParquetReadOptions {
    fn clone(&self) -> (r: ParquetReadOptions)
        ensures
            r@ == self@,
    {
        ParquetReadOptions {
            file_extension: self.file_extension.clone(),
            parquet_pruning: self.parquet_pruning,
            skip_metadata: self.skip_metadata,
        }
    }
}

/// The table over the file at `file_path`, read as `file_format`, with the
/// schema that sampling gave; none where the sample has no columns.
pub open spec fn spec_read_table(
    file_path: Seq<char>,
    file_format: FileFormat,
    sampled: Seq<crate::schema::FieldView>,
) -> Result<TableHandleView, SaError> {
    if sampled.len() == 0 {
        Err(SaError::SchemaInferenceError)
    } else {
        Ok(TableHandleView { file_url: file_path, file_format, schema: sampled })
    }
}

/// A table or an error, by the view of the table.
pub open spec fn table_result_view(r: Result<TableHandle, SaError>) -> Result<
    TableHandleView,
    SaError,
> {
    match r {
        Ok(t) => Ok(t@),
        Err(e) => Err(e),
    }
}

/// What registering the read table under `name` makes of the tables of a
/// session.
pub open spec fn spec_tables_after_register(
    tables: Map<Seq<char>, TableHandleView>,
    name: Seq<char>,
    read: Result<TableHandleView, SaError>,
) -> Map<Seq<char>, TableHandleView> {
    match read {
        Ok(table) => tables.insert(name, table),
        Err(_) => tables,
    }
}

/// What registering gives back: nothing, or the error of the read.
pub open spec fn spec_register_result(read: Result<TableHandleView, SaError>) -> Result<
    (),
    SaError,
> {
    match read {
        Ok(_) => Ok(()),
        Err(e) => Err(e),
    }
}

/// Reads the file at `file_path` as `file_format`: the table has the schema
/// that sampling gave. A sample without columns is a schema inference error.
pub fn read_table(file_path: &str, file_format: FileFormat, sampled: &TableSchema) -> (r: Result<
    TableHandle,
    SaError,
>)
    ensures
        table_result_view(r) == spec_read_table(file_path@, file_format, sampled@),
{
    if sampled.is_empty() {
        Err(SaError::SchemaInferenceError)
    } else {
        Ok(TableHandle::new(file_path, file_format, sampled.clone()))
    }
}

/// Reads the file at `file_path` and registers it in `client` under
/// `table_name`, in place of any table of that name.
pub fn register_read_table(
    client: &mut SessionState,
    table_name: &str,
    file_path: &str,
    file_format: FileFormat,
    sampled: &TableSchema,
) -> (r: Result<(), SaError>)
    requires
        old(client).wf(),
    ensures
        final(client).wf(),
        final(client).object_stores() == old(client).object_stores(),
        final(client).tables() == spec_tables_after_register(
            old(client).tables(),
            table_name@,
            spec_read_table(file_path@, file_format, sampled@),
        ),
        r == spec_register_result(spec_read_table(file_path@, file_format, sampled@)),
{
    match read_table(file_path, file_format, sampled) {
        Ok(table) => {
            let _ = client.register_table(table_name, table);
            Ok(())
        },
        Err(e) => Err(e),
    }
}

/// What the options of a reader can do with a session.
pub trait SaFileRegister {
    /// The options that the reader is run with.
    type SaCustomOptions;

    /// The reader that the options belong to.
    spec fn spec_file_format(&self) -> FileFormat;

    /// `options` are these options.
    spec fn spec_same_options(&self, options: &Self::SaCustomOptions) -> bool;

    /// The options to run the reader with: these.
    fn sa_get_options(&self) -> (r: Self::SaCustomOptions)
        ensures
            self.spec_same_options(&r),
    ;

    /// Registers the file at `file_path` in `client` under `table_name`.
    fn sa_register(
        &self,
        client: &mut SessionState,
        table_name: &str,
        file_path: &str,
        sampled: &TableSchema,
    ) -> (r: Result<(), SaError>)
        requires
            old(client).wf(),
        ensures
            final(client).wf(),
            final(client).object_stores() == old(client).object_stores(),
            final(client).tables() == spec_tables_after_register(
                old(client).tables(),
                table_name@,
                spec_read_table(file_path@, self.spec_file_format(), sampled@),
            ),
            r == spec_register_result(
                spec_read_table(file_path@, self.spec_file_format(), sampled@),
            ),
    ;

    /// Reads the file at `file_path`.
    fn sa_read(&self, client: &SessionState, file_path: &str, sampled: &TableSchema) -> (r: Result<
        TableHandle,
        SaError,
    >)
        ensures
            table_result_view(r) == spec_read_table(file_path@, self.spec_file_format(), sampled@),
    ;
}

impl SaFileRegister for CsvReadOptions {
    type SaCustomOptions = CsvReadOptions;

    open spec fn spec_file_format(&self) -> FileFormat {
        FileFormat::Csv
    }

    open spec fn spec_same_options(&self, options: &CsvReadOptions) -> bool {
        options@ == self@
    }

    fn sa_get_options(&self) -> (r: CsvReadOptions) {
        self.clone()
    }

    fn sa_register(
        &self,
        client: &mut SessionState,
        table_name: &str,
        file_path: &str,
        sampled: &TableSchema,
    ) -> (r: Result<(), SaError>) {
        register_read_table(client, table_name, file_path, FileFormat::Csv, sampled)
    }

    fn sa_read(&self, client: &SessionState, file_path: &str, sampled: &TableSchema) -> (r: Result<
        TableHandle,
        SaError,
    >) {
        read_table(file_path, FileFormat::Csv, sampled)
    }
}

impl SaFileRegister for ParquetReadOptions {
    type SaCustomOptions = ParquetReadOptions;

    open spec fn spec_file_format(&self) -> FileFormat {
        FileFormat::Parquet
    }

    open spec fn spec_same_options(&self, options: &ParquetReadOptions) -> bool {
        options@ == self@
    }

    fn sa_get_options(&self) -> (r: ParquetReadOptions) {
        self.clone()
    }

    fn sa_register(
        &self,
        client: &mut SessionState,
        table_name: &str,
        file_path: &str,
        sampled: &TableSchema,
    ) -> (r: Result<(), SaError>) {
        register_read_table(client, table_name, file_path, FileFormat::Parquet, sampled)
    }

    fn sa_read(&self, client: &SessionState, file_path: &str, sampled: &TableSchema) -> (r: Result<
        TableHandle,
        SaError,
    >) {
        read_table(file_path, FileFormat::Parquet, sampled)
    }
}

} // verus!
