use engine::error::SaError;
use engine::object_storage::locator::{table_name_of, Locator, Protocol};
use engine::object_storage::storage::{file_format_of, FileFormat};
use regex::Regex;

#[test]
fn local_locator_is_taken_apart() {
    let locator = Locator::parse("file:///a/students.csv").unwrap();
    assert_eq!(
        locator,
        Locator::Local {
            uri: "file:///a/students.csv".to_string(),
            path: "/a/students.csv".to_string()
        }
    );
    assert_eq!(locator.protocol(), Protocol::Local);
    assert_eq!(locator.uri(), "file:///a/students.csv");
    assert_eq!(locator.table_name(), "students");
}

#[test]
fn remote_locator_is_taken_apart() {
    let locator = Locator::parse("s3://my-bucket/raw/2024/scores.parquet").unwrap();
    assert_eq!(
        locator,
        Locator::Remote {
            uri: "s3://my-bucket/raw/2024/scores.parquet".to_string(),
            bucket: "my-bucket".to_string(),
            key_prefix: "raw/2024".to_string(),
            file_name: "scores.parquet".to_string(),
        }
    );
    assert_eq!(locator.protocol(), Protocol::Remote);
    assert_eq!(locator.table_name(), "scores");
}

#[test]
fn unknown_or_empty_prefix_is_an_unsupported_protocol() {
    assert_eq!(Locator::parse(""), Err(SaError::UnsupportedProtocol));
    assert_eq!(Locator::parse("http://host/a.csv"), Err(SaError::UnsupportedProtocol));
    assert_eq!(Locator::parse("/a/students.csv"), Err(SaError::UnsupportedProtocol));
    assert_eq!(Locator::parse("S3://b/k/f.csv"), Err(SaError::UnsupportedProtocol));
    assert_eq!(Locator::parse(" s3://b/k/f.csv"), Err(SaError::UnsupportedProtocol));
}

#[test]
fn remote_locator_of_another_shape_is_a_parse_error() {
    assert_eq!(Locator::parse("s3://"), Err(SaError::ParseError));
    assert_eq!(Locator::parse("s3://bucket"), Err(SaError::ParseError));
    assert_eq!(Locator::parse("s3://bucket/"), Err(SaError::ParseError));
    assert_eq!(Locator::parse("s3://bucket/file.csv"), Err(SaError::ParseError));
    assert_eq!(Locator::parse("s3://bucket//file.csv"), Err(SaError::ParseError));
    assert_eq!(Locator::parse("s3://bucket/key/"), Err(SaError::ParseError));
    assert_eq!(Locator::parse("s3:///key/file.csv"), Err(SaError::ParseError));
    assert_eq!(Locator::parse("s3://bucket/ke\ny/file.csv"), Err(SaError::ParseError));
}

#[test]
fn local_locator_wants_an_absolute_path() {
    assert_eq!(Locator::parse("file://"), Err(SaError::ParseError));
    assert_eq!(Locator::parse("file://a/b.csv"), Err(SaError::ParseError));
    assert!(Locator::parse("file:///").is_ok());
}

#[test]
fn remote_fields_agree_with_the_pattern() {
    let re = Regex::new(r"^s3://([^/]+)/(.+)/([^/]+)$").unwrap();
    let samples = [
        "s3://b/k/f",
        "s3://b/k1/k2/k3/f.csv",
        "s3://b//f",
        "s3://b/k/",
        "s3://b/k",
        "s3://b",
        "s3://",
        "s3:///k/f",
        "s3://b/k//f",
        "s3://b///f",
        "s3://b/k/f\n",
        "s3://b\n/k/f",
        "s3://b/k\n/f",
        "s3://bücket/clé/fichier.csv",
        "s3://b/ /f",
    ];
    for uri in samples {
        let expected = re.captures(uri).map(|c| {
            (
                c.get(1).unwrap().as_str().to_string(),
                c.get(2).unwrap().as_str().to_string(),
                c.get(3).unwrap().as_str().to_string(),
            )
        });
        let got = match Locator::parse(uri) {
            Ok(Locator::Remote { bucket, key_prefix, file_name, .. }) => {
                Some((bucket, key_prefix, file_name))
            }
            Ok(Locator::Local { .. }) => panic!("{:?} is not local", uri),
            Err(e) => {
                assert_eq!(e, SaError::ParseError, "locator: {:?}", uri);
                None
            }
        };
        assert_eq!(got, expected, "locator: {:?}", uri);
    }
}

#[test]
fn table_name_is_the_file_stem() {
    assert_eq!(table_name_of("file:///a/students.csv"), "students");
    assert_eq!(table_name_of("file:///a/scores.csv"), "scores");
    assert_eq!(table_name_of("s3://bucket/key/Sales.2024.parquet"), "Sales.2024");
    assert_eq!(table_name_of("file:///a/dir/"), "dir");
    assert_eq!(table_name_of("plain/path/t.csv"), "t");
}

#[test]
fn table_name_is_the_locator_without_a_file_name() {
    assert_eq!(table_name_of("file:///"), "file:///");
    assert_eq!(table_name_of("file:///a/.."), "file:///a/..");
    assert_eq!(table_name_of("s3://"), "s3://");
    assert_eq!(table_name_of(""), "");
}

#[test]
fn file_format_goes_by_the_end_of_the_locator() {
    assert_eq!(file_format_of("file:///a/students.csv"), Ok(FileFormat::Csv));
    assert_eq!(file_format_of("s3://b/k/scores.parquet"), Ok(FileFormat::Parquet));
    assert_eq!(file_format_of(".csv"), Ok(FileFormat::Csv));
    assert_eq!(file_format_of("file:///a/students.json"), Err(SaError::UnsupportedFileFormat));
    assert_eq!(file_format_of("file:///a/students.CSV"), Err(SaError::UnsupportedFileFormat));
    assert_eq!(file_format_of("file:///a/students.csv "), Err(SaError::UnsupportedFileFormat));
    assert_eq!(file_format_of("csv"), Err(SaError::UnsupportedFileFormat));
    assert_eq!(file_format_of(""), Err(SaError::UnsupportedFileFormat));
}
