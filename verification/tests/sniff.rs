use docsrs_mcp::errors::ParseError;
use docsrs_mcp::rustdoc_parser::version::get_format_version;

#[test]
fn sniff_reads_version_amid_arbitrary_content() {
    let json = r#"{"format_version": 53, "wholly": {"unknown": ["content", 1, null]}, "index": 7}"#;
    assert_eq!(get_format_version(json).unwrap(), 53);
}

#[test]
fn sniff_reads_version_46() {
    assert_eq!(get_format_version(r#"{"format_version": 46}"#).unwrap(), 46);
}

#[test]
fn sniff_missing_version_field_fails() {
    let json = r#"{"root": 0, "index": {}}"#;
    match get_format_version(json) {
        Err(ParseError::VersionField) => {}
        other => panic!("expected VersionField, got {:?}", other),
    }
}

#[test]
fn sniff_non_integer_version_fails() {
    match get_format_version(r#"{"format_version": "53"}"#) {
        Err(ParseError::VersionField) => {}
        other => panic!("expected VersionField, got {:?}", other),
    }
    match get_format_version(r#"{"format_version": -3}"#) {
        Err(ParseError::VersionField) => {}
        other => panic!("expected VersionField, got {:?}", other),
    }
}

#[test]
fn sniff_invalid_json_fails() {
    match get_format_version("this is no JSON at all {") {
        Err(ParseError::VersionField) => {}
        other => panic!("expected VersionField, got {:?}", other),
    }
}

#[test]
fn sniff_message_names_the_field() {
    let msg = get_format_version("{}").unwrap_err().message();
    assert_eq!(msg, "Invalid rustdoc JSON: missing or non-integer format_version");
}
