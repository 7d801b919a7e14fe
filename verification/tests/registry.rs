use docsrs_mcp::errors::ParseError;
use docsrs_mcp::rustdoc_parser::registry::{resolve, supported_list, Adapter};

#[test]
fn resolve_46() {
    assert_eq!(resolve(46).unwrap(), Adapter::V46);
    assert_eq!(resolve(46).unwrap().version(), 46);
}

#[test]
fn resolve_48() {
    assert_eq!(resolve(48).unwrap(), Adapter::V48);
    assert_eq!(resolve(48).unwrap().version(), 48);
}

#[test]
fn resolve_49() {
    assert_eq!(resolve(49).unwrap(), Adapter::V49);
    assert_eq!(resolve(49).unwrap().version(), 49);
}

#[test]
fn resolve_50() {
    assert_eq!(resolve(50).unwrap(), Adapter::V50);
    assert_eq!(resolve(50).unwrap().version(), 50);
}

#[test]
fn resolve_51() {
    assert_eq!(resolve(51).unwrap(), Adapter::V51);
    assert_eq!(resolve(51).unwrap().version(), 51);
}

#[test]
fn resolve_52() {
    assert_eq!(resolve(52).unwrap(), Adapter::V52);
    assert_eq!(resolve(52).unwrap().version(), 52);
}

#[test]
fn resolve_53() {
    assert_eq!(resolve(53).unwrap(), Adapter::V53);
    assert_eq!(resolve(53).unwrap().version(), 53);
}

#[test]
fn adapters_are_distinct() {
    let versions = supported_list();
    let adapters: Vec<Adapter> = versions.iter().map(|v| resolve(*v).unwrap()).collect();
    for i in 0..adapters.len() {
        for j in 0..adapters.len() {
            if i != j {
                assert_ne!(adapters[i], adapters[j]);
            }
        }
    }
}

#[test]
fn unsupported_47_names_version_and_set() {
    match resolve(47) {
        Err(ParseError::UnsupportedVersion { version, supported }) => {
            assert_eq!(version, 47);
            assert_eq!(supported, vec![46, 48, 49, 50, 51, 52, 53]);
        }
        other => panic!("expected UnsupportedVersion, got {:?}", other),
    }
    let msg = resolve(47).unwrap_err().message();
    assert!(msg.contains("47"));
    assert!(msg.contains("46"));
    assert!(msg.contains("53"));
    assert_eq!(
        msg,
        "Unsupported rustdoc format version: 47. Supported versions: 46, 48, 49, 50, 51, 52, 53"
    );
}

#[test]
fn unsupported_999_names_version_and_set() {
    match resolve(999) {
        Err(ParseError::UnsupportedVersion { version, supported }) => {
            assert_eq!(version, 999);
            assert_eq!(supported, vec![46, 48, 49, 50, 51, 52, 53]);
        }
        other => panic!("expected UnsupportedVersion, got {:?}", other),
    }
    let msg = resolve(999).unwrap_err().message();
    assert_eq!(
        msg,
        "Unsupported rustdoc format version: 999. Supported versions: 46, 48, 49, 50, 51, 52, 53"
    );
}

#[test]
fn adapter_rejects_other_versions_document() {
    // a structurally fine document that declares version 46, handed to the
    // adapter for version 48
    let json = r#"{"format_version": 46, "root": 0, "index": {}, "paths": {}}"#;
    let adapter = resolve(48).unwrap();
    match adapter.parse(json) {
        Err(ParseError::SchemaMismatch) => {}
        other => panic!("expected SchemaMismatch, got {:?}", other),
    }
}
