use engine::helper::sql_parser;
use regex::Regex;

fn by_pattern(stm: &str) -> Vec<&str> {
    let re = Regex::new(r#""(s3://[^"]+|file://[^"]+)""#).unwrap();
    re.captures_iter(stm).filter_map(|cap| cap.get(1).map(|m| m.as_str())).collect()
}

#[test]
fn extractor_returns_nothing_without_locators() {
    let found: Vec<&str> = sql_parser("SELECT * FROM students WHERE name = \"bob\"");
    assert!(found.is_empty());
}

#[test]
fn extractor_returns_nothing_for_empty_text() {
    assert!(sql_parser("").is_empty());
}

#[test]
fn extractor_returns_locators_left_to_right() {
    let sql = "SELECT * FROM \"file:///a/students.csv\" AS st JOIN \"file:///a/scores.csv\" AS s ON st.id = s.id";
    assert_eq!(sql_parser(sql), vec!["file:///a/students.csv", "file:///a/scores.csv"]);
}

#[test]
fn extractor_keeps_duplicates() {
    let sql = "SELECT * FROM \"s3://b/k/t.parquet\" a JOIN \"s3://b/k/t.parquet\" b ON a.id = b.id";
    assert_eq!(sql_parser(sql), vec!["s3://b/k/t.parquet", "s3://b/k/t.parquet"]);
}

#[test]
fn extractor_ignores_unquoted_locators() {
    assert!(sql_parser("SELECT * FROM file:///a/students.csv").is_empty());
    assert!(sql_parser("SELECT * FROM 'file:///a/students.csv'").is_empty());
}

#[test]
fn extractor_ignores_other_protocols() {
    assert!(sql_parser("SELECT * FROM \"http://a/students.csv\"").is_empty());
    assert!(sql_parser("SELECT * FROM \"gs://a/students.csv\"").is_empty());
    assert!(sql_parser("SELECT * FROM \"FILE:///a/students.csv\"").is_empty());
}

#[test]
fn extractor_wants_text_after_the_prefix() {
    assert!(sql_parser("SELECT \"file://\" FROM t").is_empty());
    assert!(sql_parser("SELECT \"s3://\" FROM t").is_empty());
    assert_eq!(sql_parser("SELECT \"s3://x\" FROM t"), vec!["s3://x"]);
}

#[test]
fn extractor_wants_a_closing_quote() {
    assert!(sql_parser("SELECT * FROM \"file:///a/students.csv").is_empty());
}

#[test]
fn extractor_does_not_reuse_a_closing_quote() {
    assert_eq!(sql_parser("\"file://a\"s3://b\""), vec!["file://a"]);
    assert_eq!(sql_parser("\"file://\"s3://b\""), vec!["s3://b"]);
}

#[test]
fn extractor_handles_text_beyond_ascii() {
    let sql = "SELECT 'é' FROM \"file:///données/élèves.csv\" WHERE x = '日本'";
    assert_eq!(sql_parser(sql), vec!["file:///données/élèves.csv"]);
}

#[test]
fn extractor_keeps_line_breaks_inside_quotes() {
    assert_eq!(sql_parser("\"file:///a\nb.csv\""), vec!["file:///a\nb.csv"]);
}

#[test]
fn extractor_agrees_with_the_pattern() {
    let samples = [
        "",
        "\"",
        "\"\"",
        "\"file://\"",
        "\"file://a\"",
        "\"file://a",
        "file://a\"",
        "\"s3://a\"\"s3://b\"",
        "\"s3://a\"s3://b\"",
        "\"\"s3://a\"",
        "x\"y\"file://z\"w\"",
        "\"file://\"file://q\"",
        "\"s3:/\"s3://ok\" \"file:/\"file://ok2\"",
        "SELECT * FROM \"file:///a/students.csv\" AS st JOIN \"file:///a/scores.csv\" AS s",
        "SELECT \"col\" FROM \"s3://bucket/key/file.parquet\" WHERE \"x\" = 'file://no'",
        "\"file://é\" \"s3://日本/語.csv\"",
        "\"s3://a\n\" \"file://\n\"",
        "\"file://a\"\"file://b\"\"file://c\"",
        "\"s3://\"\"s3://\"",
    ];
    for stm in samples {
        assert_eq!(sql_parser(stm), by_pattern(stm), "statement: {:?}", stm);
    }
}
