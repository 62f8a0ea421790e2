use agama::file_format::FileFormat;

/// The jsonnet probe, as the unverified edge computes it for the
/// library: whether the jsonnet parser accepts the content.
fn jsonnet_accepts(content: &str) -> bool {
    let settings = jrsonnet_parser::ParserSettings {
        loc_data: false,
        file_name: std::path::PathBuf::from("content").into(),
    };
    jrsonnet_parser::parse(content, &settings).is_ok()
}

fn detect(content: &str) -> FileFormat {
    FileFormat::from_string(content, jsonnet_accepts(content))
}

#[test]
fn test_json() {
    let content = r#"
            { "name:": "value"}
            "#;

    assert_eq!(detect(content), FileFormat::Json);
}

#[test]
fn test_jsonnet() {
    let content = r#"
            { name: "value" }
            "#;

    assert_eq!(detect(content), FileFormat::Jsonnet);
}

#[test]
fn test_script() {
    let content = r#"#!/bin/bash
            echo "Hello World"
            "#;

    assert_eq!(detect(content), FileFormat::Script);
}

#[test]
fn test_unknown() {
    assert_eq!(detect("{{{ not a format"), FileFormat::Unknown);
}

#[test]
fn test_json_wins_over_the_jsonnet_verdict() {
    // a JSON value is a jsonnet expression too; the JSON probe decides
    assert_eq!(FileFormat::from_string("[1, 2]", true), FileFormat::Json);
}

#[test]
fn test_rejected_text_with_no_jsonnet_verdict_is_unknown() {
    // a bad JSON escape; the jsonnet probe's verdict is simply an input
    assert_eq!(FileFormat::from_string("\"\\q\"", false), FileFormat::Unknown);
}

#[test]
fn test_script_needs_both_marker_characters() {
    assert_eq!(detect("#"), FileFormat::Unknown);
    assert_eq!(detect("#?x"), FileFormat::Unknown);
}
