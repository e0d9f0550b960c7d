//! A client that registers single files by their paths.

use crate::datafusion::context::SessionState;
use crate::error::SaError;
use crate::modules::utils::{extension, file_stem, spec_path_extension, spec_path_file_stem};
use crate::object_storage::storage::{FileFormat, StoreClientView, TableHandleView};
use crate::sa_datafusion::sa_file_format::{
    register_read_table, spec_read_table, spec_register_result, spec_tables_after_register,
    CsvReadOptions, CsvReadOptionsView, ParquetReadOptions, ParquetReadOptionsView,
};
use crate::sa_datafusion::sa_file_options::{file_table_name, spec_file_table_name};
use crate::schema::{
    cast_schema_to_named, convert_dtype, dtype_converted, schema_result_view, spec_cast_to_named,
    DataType, FieldView, PlanError, TableSchema,
};
use crate::text::{spec_to_lowercase, str_eq, to_lowercase};
use vstd::prelude::*;

verus! {

/// The options for one file: those of the reader that reads it.
#[derive(Debug)]
pub enum FileFormatOptions {
    Parquet(ParquetReadOptions),
    Csv(CsvReadOptions),
}

impl FileFormatOptions {
    /// The reader that the options belong to.
    pub open spec fn spec_file_format(&self) -> FileFormat {
        match self {
            FileFormatOptions::Parquet(_) => FileFormat::Parquet,
            FileFormatOptions::Csv(_) => FileFormat::Csv,
        }
    }

    /// The reader that the options belong to.
    pub fn file_format(&self) -> (r: FileFormat)
        ensures
            r == self.spec_file_format(),
    {
        match self {
            FileFormatOptions::Parquet(_) => FileFormat::Parquet,
            FileFormatOptions::Csv(_) => FileFormat::Csv,
        }
    }
}

/// The reader of optional options.
pub open spec fn spec_option_format(option: Option<FileFormatOptions>) -> Option<FileFormat> {
    match option {
        Some(o) => Some(o.spec_file_format()),
        None => None,
    }
}

/// The extension, in lower case, of the files that a reader reads.
pub open spec fn spec_reader_extension(file_format: FileFormat) -> Seq<char> {
    match file_format {
        FileFormat::Parquet => "parquet"@,
        FileFormat::Csv => "csv"@,
    }
}

/// The reader for the file at `file_path`, given the reader of the options
/// that came with it: that reader, where the extension of the file, in lower
/// case, is the one of the reader. A path without an extension or a file
/// stem, missing options, and options of another reader all leave the format
/// unsupported.
pub open spec fn spec_file_reader(file_path: Seq<char>, option: Option<FileFormat>) -> Result<
    FileFormat,
    SaError,
> {
    match (spec_path_extension(file_path), spec_path_file_stem(file_path), option) {
        (Some(ext), Some(_), Some(file_format)) => if spec_to_lowercase(ext)
            == spec_reader_extension(file_format) {
            Ok(file_format)
        } else {
            Err(SaError::UnsupportedFileFormat)
        },
        _ => Err(SaError::UnsupportedFileFormat),
    }
}

/// What registering the file at `file_path` with `option` makes of it.
pub open spec fn spec_register_file(
    file_path: Seq<char>,
    option: Option<FileFormatOptions>,
    sampled: Seq<FieldView>,
) -> Result<TableHandleView, SaError> {
    match spec_file_reader(file_path, spec_option_format(option)) {
        Ok(file_format) => spec_read_table(file_path, file_format, sampled),
        Err(e) => Err(e),
    }
}

/// The reader for the file at `file_path`, given the reader of the options
/// that came with it. Nothing is read; the answer tells whether the file can
/// be registered with these options at all.
pub fn file_reader(file_path: &str, option: Option<FileFormat>) -> (r: Result<FileFormat, SaError>)
    ensures
        r == spec_file_reader(file_path@, option),
{
    let file_extension = match extension(file_path) {
        Some(ext) => to_lowercase(ext.as_str()),
        None => {
            return Err(SaError::UnsupportedFileFormat);
        },
    };
    if file_stem(file_path).is_none() {
        return Err(SaError::UnsupportedFileFormat);
    }
    match option {
        Some(FileFormat::Parquet) => if str_eq(file_extension.as_str(), "parquet") {
            Ok(FileFormat::Parquet)
        } else {
            Err(SaError::UnsupportedFileFormat)
        },
        Some(FileFormat::Csv) => if str_eq(file_extension.as_str(), "csv") {
            Ok(FileFormat::Csv)
        } else {
            Err(SaError::UnsupportedFileFormat)
        },
        None => Err(SaError::UnsupportedFileFormat),
    }
}

/// A client that registers files.
pub struct SADataFusion {
    pub client: SessionState,
}

impl SADataFusion {
    /// The client is well formed.
    pub open spec fn wf(&self) -> bool {
        self.client.wf()
    }

    /// The tables of the client, by name.
    pub open spec fn tables(&self) -> Map<Seq<char>, TableHandleView> {
        self.client.tables()
    }

    /// The store clients of the client, by URL root.
    pub open spec fn object_stores(&self) -> Map<Seq<char>, StoreClientView> {
        self.client.object_stores()
    }

    /// A client without tables.
    pub fn new() -> (r: SADataFusion)
        ensures
            r.wf(),
            r.tables() == Map::<Seq<char>, TableHandleView>::empty(),
            r.object_stores() == Map::<Seq<char>, StoreClientView>::empty(),
    {
        SADataFusion { client: SessionState::new() }
    }

    /// The given options of the columnar reader, or its default options.
    pub fn get_parquet_option(&self, option: Option<ParquetReadOptions>) -> (r: ParquetReadOptions)
        ensures
            r@ == match option {
                Some(o) => o@,
                None => ParquetReadOptionsView {
                    file_extension: ".parquet"@,
                    parquet_pruning: None,
                    skip_metadata: None,
                },
            },
    {
        match option {
            Some(o) => o,
            None => ParquetReadOptions::default(),
        }
    }

    /// The given options of the delimited reader, or its default options.
    pub fn get_csv_option(&self, option: Option<CsvReadOptions>) -> (r: CsvReadOptions)
        ensures
            r@ == match option {
                Some(o) => o@,
                None => CsvReadOptionsView {
                    has_header: true,
                    delimiter: 44u8,
                    file_extension: ".csv"@,
                },
            },
    {
        match option {
            Some(o) => o,
            None => CsvReadOptions::default(),
        }
    }

    /// Registers the file at `file_path` under its file stem in lower case.
    /// The options must be those of the reader that the extension of the file
    /// selects, whatever the case of the extension.
    pub fn register_file(
        &mut self,
        file_path: &str,
        option: Option<FileFormatOptions>,
        sampled: &TableSchema,
    ) -> (r: Result<(), SaError>)
        requires
            old(self).wf(),
        ensures
            final(self).wf(),
            final(self).object_stores() == old(self).object_stores(),
            final(self).tables() == spec_tables_after_register(
                old(self).tables(),
                spec_file_table_name(file_path@),
                spec_register_file(file_path@, option, sampled@),
            ),
            r == spec_register_result(spec_register_file(file_path@, option, sampled@)),
    {
        let option_format = match &option {
            Some(o) => Some(o.file_format()),
            None => None,
        };
        let file_format = match file_reader(file_path, option_format) {
            Ok(file_format) => file_format,
            Err(e) => {
                return Err(e);
            },
        };
        let file_name = match file_table_name(file_path) {
            Some(name) => name,
            None => {
                return Err(SaError::UnsupportedFileFormat);
            },
        };
        register_read_table(&mut self.client, file_name.as_str(), file_path, file_format, sampled)
    }

    /// The type that the type name `type_str` stands for, whatever its case.
    pub fn convert_dtype(&self, type_str: &str) -> (r: Result<DataType, PlanError>)
        ensures
            dtype_converted(type_str@, r),
    {
        convert_dtype(type_str)
    }

    /// `sampled`, the schema of a file, with every column cast to the type
    /// that `type_str` names.
    pub fn cast_all_columns(&self, sampled: &TableSchema, type_str: &str) -> (r: Result<
        TableSchema,
        SaError,
    >)
        ensures
            schema_result_view(r) == spec_cast_to_named(sampled@, spec_to_lowercase(type_str@)),
    {
        cast_schema_to_named(sampled, type_str)
    }
}

} // verus!
