//! Format options for one file, and the session methods that take them.

use crate::datafusion::context::{SaDataFusion, SessionState};
use crate::error::SaError;
use crate::modules::utils::{file_stem, spec_path_file_stem};
use crate::object_storage::storage::{FileFormat, TableHandle, TableHandleView};
use crate::sa_datafusion::sa_file_format::{
    spec_read_table, spec_register_result, spec_tables_after_register, table_result_view,
    CsvReadOptions, ParquetReadOptions, SaFileRegister,
};
use crate::schema::{
    cast_schema_to_named, convert_dtype, dtype_converted, schema_result_view, spec_cast_to_named,
    DataType, FieldView, PlanError, TableSchema,
};
use crate::text::{spec_to_lowercase, to_lowercase};
use vstd::prelude::*;

verus! {

/// The options for one file: those of the reader that reads it.
#[derive(Debug)]
pub enum SaFileOptions {
    Parquet(ParquetReadOptions),
    Csv(CsvReadOptions),
}

/// Two options are for the same reader and hold the same settings.
pub open spec fn same_file_options(a: SaFileOptions, b: SaFileOptions) -> bool {
    match (a, b) {
        (SaFileOptions::Parquet(x), SaFileOptions::Parquet(y)) => x@ == y@,
        (SaFileOptions::Csv(x), SaFileOptions::Csv(y)) => x@ == y@,
        _ => false,
    }
}

impl Clone for SaFileOptions {
    fn clone(&self) -> (r: SaFileOptions)
        ensures
            same_file_options(*self, r),
    {
        match self {
            SaFileOptions::Parquet(options) => SaFileOptions::Parquet(options.clone()),
            SaFileOptions::Csv(options) => SaFileOptions::Csv(options.clone()),
        }
    }
}

/// What registering the file at `file_path` makes of it: the table read as
/// `file_format`, or a parse error where the path has no file stem.
pub open spec fn spec_read_named(
    file_path: Seq<char>,
    file_format: FileFormat,
    sampled: Seq<FieldView>,
) -> Result<TableHandleView, SaError> {
    match spec_path_file_stem(file_path) {
        Some(_) => spec_read_table(file_path, file_format, sampled),
        None => Err(SaError::ParseError),
    }
}

/// The table name for the file at `file_path`: its file stem in lower case.
pub open spec fn spec_file_table_name(file_path: Seq<char>) -> Seq<char> {
    match spec_path_file_stem(file_path) {
        Some(stem) => spec_to_lowercase(stem),
        None => Seq::empty(),
    }
}

/// The table name for the file at `file_path`, if its path has a file stem:
/// the stem in lower case.
pub fn file_table_name(file_path: &str) -> (r: Option<String>)
    ensures
        match r {
            Some(name) => spec_path_file_stem(file_path@).is_some() && name@
                == spec_file_table_name(file_path@),
            None => spec_path_file_stem(file_path@).is_none(),
        },
{
    match file_stem(file_path) {
        Some(stem) => Some(to_lowercase(stem.as_str())),
        None => None,
    }
}

impl SaFileOptions {
    /// The reader that the options belong to.
    pub open spec fn spec_file_format(&self) -> FileFormat {
        match self {
            SaFileOptions::Parquet(_) => FileFormat::Parquet,
            SaFileOptions::Csv(_) => FileFormat::Csv,
        }
    }

    /// The reader that the options belong to.
    pub fn file_format(&self) -> (r: FileFormat)
        ensures
            r == self.spec_file_format(),
    {
        match self {
            SaFileOptions::Parquet(_) => FileFormat::Parquet,
            SaFileOptions::Csv(_) => FileFormat::Csv,
        }
    }

    /// Registers the file at `file_path` in `client` under its file stem in
    /// lower case. A path without a file stem is a parse error.
    pub fn register(&self, client: &mut SessionState, file_path: &str, sampled: &TableSchema) -> (r:
        Result<(), SaError>)
        requires
            old(client).wf(),
        ensures
            final(client).wf(),
            final(client).object_stores() == old(client).object_stores(),
            final(client).tables() == spec_tables_after_register(
                old(client).tables(),
                spec_file_table_name(file_path@),
                spec_read_named(file_path@, self.spec_file_format(), sampled@),
            ),
            r == spec_register_result(
                spec_read_named(file_path@, self.spec_file_format(), sampled@),
            ),
    {
        let file_name = match file_table_name(file_path) {
            Some(name) => name,
            None => {
                return Err(SaError::ParseError);
            },
        };
        match self {
            SaFileOptions::Parquet(options) => options.sa_register(
                client,
                file_name.as_str(),
                file_path,
                sampled,
            ),
            SaFileOptions::Csv(options) => options.sa_register(
                client,
                file_name.as_str(),
                file_path,
                sampled,
            ),
        }
    }

    /// Reads the file at `file_path`.
    pub fn read(&self, client: &SessionState, file_path: &str, sampled: &TableSchema) -> (r: Result<
        TableHandle,
        SaError,
    >)
        ensures
            table_result_view(r) == spec_read_table(file_path@, self.spec_file_format(), sampled@),
    {
        match self {
            SaFileOptions::Parquet(options) => options.sa_read(client, file_path, sampled),
            SaFileOptions::Csv(options) => options.sa_read(client, file_path, sampled),
        }
    }
}

/// What reading with optional options gives: without options nothing can be
/// read.
pub open spec fn spec_read_with(
    file_path: Seq<char>,
    file_format: Option<FileFormat>,
    sampled: Seq<FieldView>,
) -> Result<TableHandleView, SaError> {
    match file_format {
        Some(f) => spec_read_table(file_path, f, sampled),
        None => Err(SaError::UnsupportedFileFormat),
    }
}

/// What registering with optional options makes of the file: without options
/// nothing can be registered.
pub open spec fn spec_read_named_with(
    file_path: Seq<char>,
    file_format: Option<FileFormat>,
    sampled: Seq<FieldView>,
) -> Result<TableHandleView, SaError> {
    match file_format {
        Some(f) => spec_read_named(file_path, f, sampled),
        None => Err(SaError::UnsupportedFileFormat),
    }
}

/// The reader of optional options.
pub open spec fn spec_format_of(options: Option<SaFileOptions>) -> Option<FileFormat> {
    match options {
        Some(o) => Some(o.spec_file_format()),
        None => None,
    }
}

/// The reader of optional borrowed options.
pub open spec fn spec_format_of_ref(options: Option<&SaFileOptions>) -> Option<FileFormat> {
    match options {
        Some(o) => Some(o.spec_file_format()),
        None => None,
    }
}

/// The schema of what was read, cast to the type that `lowered` names.
pub open spec fn spec_cast_read(
    read: Result<TableHandleView, SaError>,
    lowered: Seq<char>,
) -> Result<Seq<FieldView>, SaError> {
    match read {
        Ok(table) => spec_cast_to_named(table.schema, lowered),
        Err(e) => Err(e),
    }
}

impl SaDataFusion {
    /// Registers the file at `file_path` under its file stem in lower case.
    /// Without options the format of the file is not known.
    pub fn register(
        &mut self,
        file_path: &str,
        options: Option<SaFileOptions>,
        sampled: &TableSchema,
    ) -> (r: Result<(), SaError>)
        requires
            old(self).wf(),
        ensures
            final(self).wf(),
            final(self).object_stores() == old(self).object_stores(),
            final(self).tables() == spec_tables_after_register(
                old(self).tables(),
                spec_file_table_name(file_path@),
                spec_read_named_with(file_path@, spec_format_of(options), sampled@),
            ),
            r == spec_register_result(
                spec_read_named_with(file_path@, spec_format_of(options), sampled@),
            ),
    {
        match options {
            Some(sa_file_options) => sa_file_options.register(&mut self.ctx, file_path, sampled),
            None => Err(SaError::UnsupportedFileFormat),
        }
    }

    /// The type that the type name `type_str` stands for, whatever its case.
    pub fn convert_dtype(&self, type_str: &str) -> (r: Result<DataType, PlanError>)
        ensures
            dtype_converted(type_str@, r),
    {
        convert_dtype(type_str)
    }

    /// Reads the file at `file_path`. Without options the format of the file
    /// is not known.
    pub fn read(&self, file_path: &str, options: Option<&SaFileOptions>, sampled: &TableSchema) -> (r:
        Result<TableHandle, SaError>)
        ensures
            table_result_view(r) == spec_read_with(
                file_path@,
                spec_format_of_ref(options),
                sampled@,
            ),
    {
        match options {
            Some(sa_file_options) => sa_file_options.read(&self.ctx, file_path, sampled),
            None => Err(SaError::UnsupportedFileFormat),
        }
    }

    /// The schema of the file at `file_path` with every column cast to the
    /// type that `cast_type` names.
    pub fn get_cast_schema(
        &self,
        file_path: &str,
        cast_type: &str,
        options: Option<&SaFileOptions>,
        sampled: &TableSchema,
    ) -> (r: Result<TableSchema, SaError>)
        ensures
            schema_result_view(r) == spec_cast_read(
                spec_read_with(file_path@, spec_format_of_ref(options), sampled@),
                spec_to_lowercase(cast_type@),
            ),
    {
        match self.read(file_path, options, sampled) {
            Ok(table) => cast_schema_to_named(table.schema(), cast_type),
            Err(e) => Err(e),
        }
    }
}

} // verus!
