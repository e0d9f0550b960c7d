use engine::datafusion::context::SessionState;
use engine::datafusion::SaDataFusion;
use engine::error::SaError;
use engine::modules::datafusion::{file_reader, FileFormatOptions, SADataFusion};
use engine::object_storage::storage::{FileFormat, TableHandle};
use engine::sa_datafusion::sa_file_format::{
    read_table, register_read_table, CsvReadOptions, ParquetReadOptions, SaFileRegister,
};
use engine::sa_datafusion::sa_file_options::{file_table_name, SaFileOptions};
use engine::schema::{DataType, Field, TableSchema};

fn holds_exactly(state: &SessionState, names: &[&str]) -> bool {
    state.table_count() == names.len() && names.iter().all(|name| state.table(name).is_some())
}

fn sample() -> TableSchema {
    TableSchema::new(vec![
        Field::new("id", DataType::Int64, false),
        Field::new("name", DataType::Utf8, true),
    ])
}

#[test]
fn default_options() {
    let csv = CsvReadOptions::default();
    assert!(csv.has_header);
    assert_eq!(csv.delimiter, b',');
    assert_eq!(csv.file_extension, ".csv");
    let parquet = ParquetReadOptions::default();
    assert_eq!(parquet.file_extension, ".parquet");
    assert_eq!(parquet.parquet_pruning, None);
    assert_eq!(parquet.skip_metadata, None);
}

#[test]
fn options_hand_out_themselves() {
    let csv = CsvReadOptions { has_header: false, delimiter: b';', file_extension: ".txt".to_string() };
    let got = csv.sa_get_options();
    assert_eq!((got.has_header, got.delimiter, got.file_extension.as_str()), (false, b';', ".txt"));
    let parquet = ParquetReadOptions {
        file_extension: ".pq".to_string(),
        parquet_pruning: Some(true),
        skip_metadata: Some(false),
    };
    let got = parquet.sa_get_options();
    assert_eq!(
        (got.file_extension.as_str(), got.parquet_pruning, got.skip_metadata),
        (".pq", Some(true), Some(false))
    );
}

#[test]
fn options_register_a_file_under_a_given_name() {
    let mut client = SessionState::new();
    let csv = CsvReadOptions::default();
    assert_eq!(csv.sa_register(&mut client, "people", "/data/People.csv", &sample()), Ok(()));
    assert_eq!(
        client.table("people"),
        Some(&TableHandle::new("/data/People.csv", FileFormat::Csv, sample()))
    );
    let parquet = ParquetReadOptions::default();
    assert_eq!(parquet.sa_register(&mut client, "people", "/data/p.parquet", &sample()), Ok(()));
    assert_eq!(client.table_count(), 1);
    assert_eq!(client.table("people").unwrap().file_format(), FileFormat::Parquet);
    assert_eq!(
        parquet.sa_register(&mut client, "none", "/data/none.parquet", &TableSchema::empty()),
        Err(SaError::SchemaInferenceError)
    );
    assert_eq!(client.table_count(), 1);
}

#[test]
fn options_read_a_file() {
    let client = SessionState::new();
    assert_eq!(
        CsvReadOptions::default().sa_read(&client, "/data/a.csv", &sample()),
        Ok(TableHandle::new("/data/a.csv", FileFormat::Csv, sample()))
    );
    assert_eq!(
        ParquetReadOptions::default().sa_read(&client, "/data/a.parquet", &sample()),
        Ok(TableHandle::new("/data/a.parquet", FileFormat::Parquet, sample()))
    );
    assert_eq!(
        read_table("/data/a.csv", FileFormat::Csv, &TableSchema::empty()),
        Err(SaError::SchemaInferenceError)
    );
    let mut client = SessionState::new();
    assert_eq!(
        register_read_table(&mut client, "a", "/data/a.csv", FileFormat::Csv, &sample()),
        Ok(())
    );
    assert!(holds_exactly(&client, &["a"]));
}

#[test]
fn file_options_register_under_the_stem_in_lower_case() {
    let mut client = SessionState::new();
    let options = SaFileOptions::Csv(CsvReadOptions::default());
    assert_eq!(options.file_format(), FileFormat::Csv);
    assert_eq!(options.register(&mut client, "/data/People.CSV", &sample()), Ok(()));
    assert!(holds_exactly(&client, &["people"]));
    assert_eq!(client.table("people").unwrap().file_url(), "/data/People.CSV");
    assert_eq!(options.register(&mut client, "/", &sample()), Err(SaError::ParseError));
    assert_eq!(
        options.register(&mut client, "/data/x.csv", &TableSchema::empty()),
        Err(SaError::SchemaInferenceError)
    );
    assert_eq!(client.table_count(), 1);
    let copy = options.clone();
    assert_eq!(copy.file_format(), FileFormat::Csv);
}

#[test]
fn file_options_read() {
    let client = SessionState::new();
    let options = SaFileOptions::Parquet(ParquetReadOptions::default());
    assert_eq!(
        options.read(&client, "/data/x.parquet", &sample()),
        Ok(TableHandle::new("/data/x.parquet", FileFormat::Parquet, sample()))
    );
}

#[test]
fn session_registers_with_file_options() {
    let mut session = SaDataFusion::new();
    let options = SaFileOptions::Parquet(ParquetReadOptions::default());
    assert_eq!(session.register("/data/ÉLÈVES.parquet", Some(options), &sample()), Ok(()));
    assert!(holds_exactly(&session.ctx, &["élèves"]));
    assert_eq!(session.get_schema("élèves"), Ok(sample()));
    assert_eq!(session.register("/data/x.parquet", None, &sample()), Err(SaError::UnsupportedFileFormat));
    assert_eq!(session.ctx.table_count(), 1);
}

#[test]
fn session_reads_and_casts() {
    let session = SaDataFusion::new();
    let options = SaFileOptions::Csv(CsvReadOptions::default());
    assert_eq!(
        session.read("/data/a.csv", Some(&options), &sample()),
        Ok(TableHandle::new("/data/a.csv", FileFormat::Csv, sample()))
    );
    assert_eq!(session.read("/data/a.csv", None, &sample()), Err(SaError::UnsupportedFileFormat));
    assert_eq!(
        session.get_cast_schema("/data/a.csv", "String", Some(&options), &sample()),
        Ok(sample().cast_all(DataType::Utf8))
    );
    assert_eq!(
        session.get_cast_schema("/data/a.csv", "float", Some(&options), &sample()),
        Ok(sample().cast_all(DataType::Float64))
    );
    assert_eq!(
        session.get_cast_schema("/data/a.csv", "int", Some(&options), &sample()),
        Err(SaError::UnsupportedDataType)
    );
    assert_eq!(
        session.get_cast_schema("/data/a.csv", "string", None, &sample()),
        Err(SaError::UnsupportedFileFormat)
    );
    assert_eq!(
        session.get_cast_schema("/data/a.csv", "string", Some(&options), &TableSchema::empty()),
        Err(SaError::SchemaInferenceError)
    );
    assert_eq!(session.convert_dtype("FLOAT"), Ok(DataType::Float64));
}

#[test]
fn client_registers_files_whose_options_fit() {
    let mut client = SADataFusion::new();
    assert_eq!(
        client.register_file(
            "/data/Sales.PARQUET",
            Some(FileFormatOptions::Parquet(ParquetReadOptions::default())),
            &sample()
        ),
        Ok(())
    );
    assert_eq!(
        client.register_file(
            "/data/people.csv",
            Some(FileFormatOptions::Csv(CsvReadOptions::default())),
            &sample()
        ),
        Ok(())
    );
    assert!(holds_exactly(&client.client, &["sales", "people"]));
    assert_eq!(client.client.table("sales").unwrap().file_format(), FileFormat::Parquet);
    assert_eq!(client.client.table("people").unwrap().file_url(), "/data/people.csv");
}

#[test]
fn client_refuses_files_whose_options_do_not_fit() {
    let mut client = SADataFusion::new();
    let unsupported = Err(SaError::UnsupportedFileFormat);
    assert_eq!(
        client.register_file(
            "/data/people.csv",
            Some(FileFormatOptions::Parquet(ParquetReadOptions::default())),
            &sample()
        ),
        unsupported
    );
    assert_eq!(
        client.register_file(
            "/data/people.parquet",
            Some(FileFormatOptions::Csv(CsvReadOptions::default())),
            &sample()
        ),
        unsupported
    );
    assert_eq!(client.register_file("/data/people.csv", None, &sample()), unsupported);
    assert_eq!(
        client.register_file(
            "/data/people",
            Some(FileFormatOptions::Csv(CsvReadOptions::default())),
            &sample()
        ),
        unsupported
    );
    assert_eq!(
        client.register_file(
            "/data/people.csv",
            Some(FileFormatOptions::Csv(CsvReadOptions::default())),
            &TableSchema::empty()
        ),
        Err(SaError::SchemaInferenceError)
    );
    assert_eq!(client.client.table_count(), 0);
}

#[test]
fn client_options_and_casts() {
    let client = SADataFusion::new();
    assert_eq!(client.get_csv_option(None).file_extension, ".csv");
    assert_eq!(client.get_parquet_option(None).file_extension, ".parquet");
    let csv = CsvReadOptions { has_header: false, delimiter: b'\t', file_extension: ".tsv".to_string() };
    let got = client.get_csv_option(Some(csv));
    assert_eq!((got.has_header, got.delimiter, got.file_extension.as_str()), (false, b'\t', ".tsv"));
    let parquet = ParquetReadOptions {
        file_extension: ".pq".to_string(),
        parquet_pruning: Some(false),
        skip_metadata: None,
    };
    assert_eq!(client.get_parquet_option(Some(parquet)).parquet_pruning, Some(false));
    assert_eq!(client.convert_dtype("String"), Ok(DataType::Utf8));
    assert_eq!(
        client.convert_dtype("Text").unwrap_err().message,
        "Unsupported data type: Text"
    );
    assert_eq!(client.cast_all_columns(&sample(), "string"), Ok(sample().cast_all(DataType::Utf8)));
    assert_eq!(client.cast_all_columns(&sample(), "text"), Err(SaError::UnsupportedDataType));
    assert_eq!(client.cast_all_columns(&TableSchema::empty(), "text"), Ok(TableSchema::empty()));
}

#[test]
fn the_reader_of_a_file_goes_by_extension_and_options() {
    let unsupported = Err(SaError::UnsupportedFileFormat);
    assert_eq!(file_reader("/data/Sales.PARQUET", Some(FileFormat::Parquet)), Ok(FileFormat::Parquet));
    assert_eq!(file_reader("/data/people.csv", Some(FileFormat::Csv)), Ok(FileFormat::Csv));
    assert_eq!(file_reader("/data/people.csv", Some(FileFormat::Parquet)), unsupported);
    assert_eq!(file_reader("/data/people.parquet", Some(FileFormat::Csv)), unsupported);
    assert_eq!(file_reader("/data/people.csv", None), unsupported);
    assert_eq!(file_reader("/data/people", Some(FileFormat::Csv)), unsupported);
    assert_eq!(file_reader("/", Some(FileFormat::Csv)), unsupported);
    assert_eq!(
        FileFormatOptions::Csv(CsvReadOptions::default()).file_format(),
        FileFormat::Csv
    );
}

#[test]
fn the_table_name_of_a_file_is_its_stem_in_lower_case() {
    assert_eq!(file_table_name("/data/People.CSV"), Some("people".to_string()));
    assert_eq!(file_table_name("Sales.2024.parquet"), Some("sales.2024".to_string()));
    assert_eq!(file_table_name("/"), None);
    assert_eq!(file_table_name(""), None);
}
