use docsrs_mcp::errors::ParseError;
use docsrs_mcp::rustdoc_parser::{find_item, parse_crate_info};

/// One complete index entry, keyed by `key` (normally the id's decimal
/// form). `name` and `docs` are JSON literals.
fn keyed_entry(key: &str, id: u32, name: &str, vis: &str, docs: &str, inner: &str) -> String {
    format!(
        r#""{key}": {{"id": {id}, "crate_id": 0, "name": {name}, "span": null, "visibility": {vis}, "docs": {docs}, "links": {{}}, "attrs": [], "deprecation": null, "inner": {inner}}}"#
    )
}

fn entry(id: u32, name: &str, vis: &str, docs: &str, inner: &str) -> String {
    keyed_entry(&id.to_string(), id, name, vis, docs, inner)
}

fn document(version: u32, entries: &[String], paths: &str) -> String {
    format!(
        r#"{{"format_version": {version}, "root": 0, "crate_version": null, "includes_private": false, "index": {{{}}}, "paths": {paths}, "external_crates": {{}}, "target": {{"triple": "x86_64-unknown-linux-gnu", "target_features": []}}}}"#,
        entries.join(", ")
    )
}

fn module_inner(children: &str) -> String {
    format!(r#"{{"module": {{"is_crate": true, "items": {children}, "is_stripped": false}}}}"#)
}

fn unit_struct_inner() -> &'static str {
    r#"{"struct": {"kind": "unit", "generics": {"params": [], "where_predicates": []}, "impls": []}}"#
}

#[test]
fn empty_docs_string_still_gets_a_separator() {
    // docs of Some("") produce the separator with an empty summary,
    // unlike absent docs
    let json = document(
        46,
        &[
            entry(0, r#""mycrate""#, r#""public""#, "null", &module_inner("[1]")),
            entry(1, r#""Foo""#, r#""public""#, r#""""#, unit_struct_inner()),
        ],
        "{}",
    );
    let out = parse_crate_info(&json).unwrap();
    assert_eq!(out, "# Crate: mycrate\n\n## Structs\n- **Foo**: ");
}

#[test]
fn nameless_public_item_is_not_listed() {
    let json = document(
        49,
        &[
            entry(0, r#""mycrate""#, r#""public""#, "null", &module_inner("[1]")),
            entry(1, "null", r#""public""#, "null", unit_struct_inner()),
        ],
        "{}",
    );
    let out = parse_crate_info(&json).unwrap();
    assert_eq!(out, "# Crate: mycrate");
}

#[test]
fn non_canonical_index_key_is_a_schema_mismatch() {
    let json = document(
        46,
        &[keyed_entry("007", 7, r#""x""#, r#""public""#, "null", &module_inner("[]"))],
        "{}",
    );
    match parse_crate_info(&json) {
        Err(ParseError::SchemaMismatch) => {}
        other => panic!("expected SchemaMismatch, got {:?}", other),
    }
}

#[test]
fn unknown_item_kind_tag_is_a_schema_mismatch() {
    let json = document(
        46,
        &[entry(0, r#""x""#, r#""public""#, "null", r#"{"widget": {"items": []}}"#)],
        "{}",
    );
    match parse_crate_info(&json) {
        Err(ParseError::SchemaMismatch) => {}
        other => panic!("expected SchemaMismatch, got {:?}", other),
    }
}

#[test]
fn extern_type_inner_is_a_bare_tag() {
    let json = document(
        53,
        &[
            entry(0, r#""mycrate""#, r#""public""#, "null", &module_inner("[1]")),
            entry(1, r#""Opaque""#, r#""public""#, "null", r#""extern_type""#),
        ],
        "{}",
    );
    // an external type is in no summary category
    let out = parse_crate_info(&json).unwrap();
    assert_eq!(out, "# Crate: mycrate");
    // but it can be described by name
    let item = find_item(&json, "Opaque").unwrap();
    assert!(item.starts_with("# Opaque"));
    assert!(item.contains("**Type:** External Type"));
}

#[test]
fn restricted_visibility_is_shown_when_described() {
    let function_inner = r#"{"function": {"sig": {"inputs": [], "output": null, "is_c_variadic": false}, "generics": {"params": [], "where_predicates": []}, "header": {"is_const": false, "is_async": false, "is_unsafe": false, "abi": "Rust"}, "has_body": true}}"#;
    let json = document(
        50,
        &[
            entry(0, r#""mycrate""#, r#""public""#, "null", &module_inner("[1]")),
            entry(
                1,
                r#""inner_helper""#,
                r#"{"restricted": {"parent": 0, "path": "crate::detail"}}"#,
                "null",
                function_inner,
            ),
        ],
        "{}",
    );
    let item = find_item(&json, "inner_helper").unwrap();
    assert!(item.contains("**Visibility:** Restricted"));
    // no attribute flags are set, so no attribute line appears
    assert!(!item.contains("**Attributes:**"));
}

#[test]
fn path_phase_skips_entries_whose_id_is_not_indexed() {
    // the first matching paths entry points at an id absent from the
    // index; resolution continues and the name search finds the item
    let json = document(
        52,
        &[
            entry(0, r#""mycrate""#, r#""public""#, "null", &module_inner("[1]")),
            entry(1, r#""Widget""#, r#""public""#, "null", unit_struct_inner()),
        ],
        r#"{"77": {"crate_id": 0, "path": ["elsewhere", "Widget"], "kind": "struct"}}"#,
    );
    let item = find_item(&json, "Widget").unwrap();
    assert!(item.starts_with("# Widget"));
    assert!(item.contains("**Type:** Struct"));
}
