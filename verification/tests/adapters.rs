use engine::datafusion::SaDataFusion;
use engine::error::SaError;
use engine::object_storage::storage::{FileFormat, SaStorage, TableHandle};
use engine::object_storage::{SaLocalStorage, SaS3};
use engine::schema::{DataType, Field, TableSchema};

fn id_and_name() -> TableSchema {
    TableSchema::new(vec![
        Field::new("id", DataType::Int64, false),
        Field::new("name", DataType::Utf8, true),
    ])
}

#[test]
fn local_adapter_from_a_path() {
    let storage = SaLocalStorage::new("/a/students.csv");
    assert_eq!(storage.get_file_url(), "file:///a/students.csv");
    assert_eq!(storage.get_protocal(), "file");
    assert_eq!(storage.get_table_provider(), None);
    assert_eq!(storage.get_object_store(), None);
}

#[test]
fn local_adapter_from_a_locator() {
    let storage = SaLocalStorage::new_with_file_uri("file:///a/students.csv");
    assert_eq!(storage.get_file_url(), "file:///a/students.csv");
}

#[test]
fn local_adapter_by_default() {
    let storage = SaLocalStorage::default();
    assert_eq!(storage.get_file_url(), "");
    assert_eq!(storage.get_table_provider(), None);
}

#[test]
fn binding_with_stringify_gives_text_columns() {
    let bound = SaLocalStorage::new("/a/students.csv")
        .init_table_provider(FileFormat::Csv, Some(false), &id_and_name())
        .unwrap();
    assert_eq!(
        bound.get_table_provider(),
        Some(TableHandle::new(
            "file:///a/students.csv",
            FileFormat::Csv,
            TableSchema::new(vec![
                Field::new("id", DataType::Utf8, false),
                Field::new("name", DataType::Utf8, true),
            ])
        ))
    );
    assert_eq!(bound.get_file_url(), "file:///a/students.csv");
}

#[test]
fn binding_with_inference_keeps_the_sampled_types() {
    for flag in [None, Some(true)] {
        let bound = SaLocalStorage::new("/a/students.csv")
            .init_table_provider(FileFormat::Csv, flag, &id_and_name())
            .unwrap();
        assert_eq!(
            bound.get_table_provider(),
            Some(TableHandle::new("file:///a/students.csv", FileFormat::Csv, id_and_name()))
        );
    }
}

#[test]
fn binding_an_empty_sample_fails() {
    let bound = SaLocalStorage::new("/a/*.csv").init_table_provider(
        FileFormat::Csv,
        Some(false),
        &TableSchema::empty(),
    );
    assert_eq!(bound.unwrap_err(), SaError::SchemaInferenceError);
}

#[test]
fn remote_adapter_from_its_fields() {
    let s3 = SaS3::new("my-bucket", "raw/2024", "scores.parquet");
    assert_eq!(s3.get_file_url(), "s3://my-bucket/raw/2024/scores.parquet");
    assert_eq!(s3.get_s3_bucket(), "my-bucket");
    assert_eq!(s3.get_s3_src_key(), "raw/2024");
    assert_eq!(s3.get_s3_file(), "scores.parquet");
    assert_eq!(s3.get_protocal(), "s3");
    assert_eq!(s3.get_table_provider(), None);
    assert_eq!(s3.get_object_store(), None);
}

#[test]
fn remote_adapter_from_a_locator() {
    let s3 = SaS3::new_from_s3_uri("s3://my-bucket/raw/2024/scores.parquet").unwrap();
    assert_eq!(s3.get_file_url(), "s3://my-bucket/raw/2024/scores.parquet");
    assert_eq!(s3.get_s3_bucket(), "my-bucket");
    assert_eq!(s3.get_s3_src_key(), "raw/2024");
    assert_eq!(s3.get_s3_file(), "scores.parquet");
}

#[test]
fn remote_adapter_refuses_other_shapes() {
    assert_eq!(SaS3::new_from_s3_uri("s3://my-bucket/scores.parquet").unwrap_err(), SaError::ParseError);
    assert_eq!(SaS3::new_from_s3_uri("file:///a/b/c.csv").unwrap_err(), SaError::ParseError);
    assert_eq!(SaS3::new_from_s3_uri("").unwrap_err(), SaError::ParseError);
}

#[test]
fn remote_adapter_by_default() {
    let s3 = SaS3::default();
    assert_eq!(s3.get_file_url(), "");
    assert_eq!(s3.get_s3_bucket(), "");
    assert_eq!(s3.get_object_store(), None);
}

#[test]
fn remote_region_defaults() {
    assert_eq!(SaS3::region_or_default(None), "us-east-1");
    assert_eq!(SaS3::region_or_default(Some("ap-south-1")), "ap-south-1");
}

#[test]
fn remote_binding_of_an_empty_sample_fails_and_keeps_the_store() {
    let mut session = SaDataFusion::new();
    let s3 = SaS3::new_from_s3_uri("s3://my-bucket/raw/none.csv").unwrap();
    let bound = s3.init_table_provider(
        "us-east-1",
        &mut session,
        FileFormat::Csv,
        Some(false),
        &TableSchema::empty(),
    );
    assert_eq!(bound.unwrap_err(), SaError::SchemaInferenceError);
    assert_eq!(session.ctx.object_store_count(), 1);
    assert!(session.ctx.object_store("s3://my-bucket").is_some());
}

#[test]
fn remote_binding_of_what_is_no_url_fails_and_leaves_the_session() {
    let mut session = SaDataFusion::new();
    let s3 = SaS3::new("my bucket", "raw", "x.csv");
    let bound = s3.init_table_provider("us-east-1", &mut session, FileFormat::Csv, None, &id_and_name());
    assert_eq!(bound.unwrap_err(), SaError::ParseError);
    assert_eq!(session.ctx.object_store_count(), 0);
}

#[test]
fn adapters_can_be_cloned() {
    let local = SaLocalStorage::new("/a/students.csv")
        .init_table_provider(FileFormat::Csv, Some(false), &id_and_name())
        .unwrap();
    let copy = local.clone();
    assert_eq!(copy.get_file_url(), local.get_file_url());
    assert_eq!(copy.get_table_provider(), local.get_table_provider());
    assert_eq!(copy.get_protocal(), "file");
    assert_eq!(copy.get_object_store(), None);

    let mut session = SaDataFusion::new();
    let s3 = SaS3::new("sql-anywhere", "ex-s3-application", "students.csv")
        .init_table_provider("us-east-1", &mut session, FileFormat::Csv, None, &id_and_name())
        .unwrap();
    let copy = s3.clone();
    assert_eq!(copy.get_file_url(), "s3://sql-anywhere/ex-s3-application/students.csv");
    assert_eq!(copy.get_s3_bucket(), "sql-anywhere");
    assert_eq!(copy.get_s3_src_key(), "ex-s3-application");
    assert_eq!(copy.get_s3_file(), "students.csv");
    assert_eq!(copy.get_protocal(), "s3");
    assert_eq!(copy.get_table_provider(), s3.get_table_provider());
    assert_eq!(copy.get_object_store(), s3.get_object_store());
}
