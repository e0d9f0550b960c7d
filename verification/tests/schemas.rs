use engine::error::{BindFailure, SaError};
use engine::schema::{
    cast_schema_to_named, convert_dtype, dtype_of_name, DataType, Field, PlanError, TableSchema,
};

fn id_and_name() -> TableSchema {
    TableSchema::new(vec![
        Field::new("id", DataType::Int64, false),
        Field::new("name", DataType::Utf8, true),
    ])
}

#[test]
fn stringify_turns_every_column_into_text() {
    let normalized = id_and_name().normalize(true);
    assert_eq!(
        normalized,
        TableSchema::new(vec![
            Field::new("id", DataType::Utf8, false),
            Field::new("name", DataType::Utf8, true),
        ])
    );
}

#[test]
fn stringify_keeps_nullability_of_each_column() {
    for id_nullable in [false, true] {
        for name_nullable in [false, true] {
            let inferred = TableSchema::new(vec![
                Field::new("id", DataType::Int64, id_nullable),
                Field::new("name", DataType::Utf8, name_nullable),
            ]);
            let normalized = inferred.normalize(true);
            assert_eq!(normalized.len(), 2);
            let id = normalized.field(0).unwrap();
            let name = normalized.field(1).unwrap();
            assert_eq!((id.name(), id.data_type(), id.is_nullable()), ("id", DataType::Utf8, id_nullable));
            assert_eq!(
                (name.name(), name.data_type(), name.is_nullable()),
                ("name", DataType::Utf8, name_nullable)
            );
        }
    }
}

#[test]
fn without_stringify_the_schema_stays() {
    assert_eq!(id_and_name().normalize(false), id_and_name());
}

#[test]
fn cast_all_replaces_only_the_types() {
    let cast = id_and_name().cast_all(DataType::Float64);
    assert_eq!(
        cast,
        TableSchema::new(vec![
            Field::new("id", DataType::Float64, false),
            Field::new("name", DataType::Float64, true),
        ])
    );
    assert_eq!(TableSchema::empty().cast_all(DataType::Utf8), TableSchema::empty());
}

#[test]
fn cast_all_twice_is_the_second_cast() {
    let twice = id_and_name().cast_all(DataType::Float64).cast_all(DataType::Utf8);
    assert_eq!(twice, id_and_name().cast_all(DataType::Utf8));
}

#[test]
fn schema_accessors() {
    let schema = id_and_name();
    assert_eq!(schema.len(), 2);
    assert!(!schema.is_empty());
    assert!(TableSchema::empty().is_empty());
    assert_eq!(schema.field(1), Some(&Field::new("name", DataType::Utf8, true)));
    assert_eq!(schema.field(2), None);
    assert_eq!(schema.clone(), schema);
}

#[test]
fn type_names() {
    assert_eq!(DataType::Utf8.name(), "Utf8");
    assert_eq!(DataType::Float64.name(), "Float64");
    assert_eq!(DataType::Int64.name(), "Int64");
    assert_eq!(DataType::Other.name(), "Other");
}

#[test]
fn named_types_in_lower_case() {
    assert_eq!(dtype_of_name("string"), Some(DataType::Utf8));
    assert_eq!(dtype_of_name("float"), Some(DataType::Float64));
    assert_eq!(dtype_of_name("String"), None);
    assert_eq!(dtype_of_name("int"), None);
    assert_eq!(dtype_of_name(""), None);
}

#[test]
fn convert_dtype_ignores_case() {
    assert_eq!(convert_dtype("string"), Ok(DataType::Utf8));
    assert_eq!(convert_dtype("STRING"), Ok(DataType::Utf8));
    assert_eq!(convert_dtype("Float"), Ok(DataType::Float64));
    assert_eq!(convert_dtype("String"), Ok(DataType::Utf8));
    assert_eq!(
        convert_dtype("INT"),
        Err(PlanError { message: "Unsupported data type: INT".to_string() })
    );
    assert_eq!(
        convert_dtype("double"),
        Err(PlanError { message: "Unsupported data type: double".to_string() })
    );
    assert_eq!(convert_dtype(""), Err(PlanError { message: "Unsupported data type: ".to_string() }));
}

#[test]
fn cast_to_a_named_type() {
    assert_eq!(cast_schema_to_named(&id_and_name(), "String"), Ok(id_and_name().cast_all(DataType::Utf8)));
    assert_eq!(cast_schema_to_named(&id_and_name(), "FLOAT"), Ok(id_and_name().cast_all(DataType::Float64)));
    assert_eq!(cast_schema_to_named(&id_and_name(), "int"), Err(SaError::UnsupportedDataType));
    assert_eq!(cast_schema_to_named(&TableSchema::empty(), "int"), Ok(TableSchema::empty()));
}

#[test]
fn error_messages() {
    assert_eq!(SaError::UnsupportedFileFormat.message(), "unsupported file format");
    assert_eq!(SaError::UnsupportedProtocol.message(), "unsupported file protocol");
    assert_eq!(SaError::ParseError.message(), "could not parse the locator");
    assert_eq!(SaError::UnsupportedDataType.message(), "unsupported data type");
}

#[test]
fn bind_failures_by_cause_and_place() {
    assert_eq!(
        SaError::bind_error(Some(BindFailure::NotFound), false),
        SaError::BindError(BindFailure::NotFound)
    );
    assert_eq!(
        SaError::bind_error(Some(BindFailure::NotFound), true),
        SaError::BindError(BindFailure::NotFound)
    );
    assert_eq!(
        SaError::bind_error(Some(BindFailure::PermissionDenied), false),
        SaError::BindError(BindFailure::PermissionDenied)
    );
    assert_eq!(SaError::bind_error(Some(BindFailure::PermissionDenied), true), SaError::RemoteStoreError);
    assert_eq!(SaError::bind_error(Some(BindFailure::Io), false), SaError::BindError(BindFailure::Io));
    assert_eq!(SaError::bind_error(Some(BindFailure::Io), true), SaError::RemoteStoreError);
    assert_eq!(SaError::bind_error(None, false), SaError::SchemaInferenceError);
    assert_eq!(SaError::bind_error(None, true), SaError::RemoteStoreError);
    assert_eq!(SaError::BindError(BindFailure::Io).message(), "source could not be read");
    assert_eq!(SaError::BindError(BindFailure::NotFound).message(), "source not found");
}
