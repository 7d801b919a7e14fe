use docsrs_mcp::errors::ParseError;
use docsrs_mcp::rustdoc_parser::{find_item, parse_crate_info};

/// One complete index entry. `name`, `docs` and `deprecation` are JSON
/// literals (e.g. `"\"Foo\""` or `"null"`).
fn entry(id: u32, name: &str, vis: &str, docs: &str, deprecation: &str, inner: &str) -> String {
    format!(
        r#""{id}": {{"id": {id}, "crate_id": 0, "name": {name}, "span": null, "visibility": {vis}, "docs": {docs}, "links": {{}}, "attrs": [], "deprecation": {deprecation}, "inner": {inner}}}"#
    )
}

/// One complete document. `crate_version` is a JSON literal.
fn document(version: u32, crate_version: &str, entries: &[String], paths: &str) -> String {
    format!(
        r#"{{"format_version": {version}, "root": 0, "crate_version": {crate_version}, "includes_private": false, "index": {{{}}}, "paths": {paths}, "external_crates": {{}}, "target": {{"triple": "x86_64-unknown-linux-gnu", "target_features": []}}}}"#,
        entries.join(", ")
    )
}

fn module_inner(children: &str) -> String {
    format!(r#"{{"module": {{"is_crate": true, "items": {children}, "is_stripped": false}}}}"#)
}

fn empty_generics() -> &'static str {
    r#"{"params": [], "where_predicates": []}"#
}

fn unit_struct_inner() -> String {
    format!(
        r#"{{"struct": {{"kind": "unit", "generics": {}, "impls": []}}}}"#,
        empty_generics()
    )
}

fn function_inner(is_const: bool, is_async: bool, is_unsafe: bool) -> String {
    format!(
        r#"{{"function": {{"sig": {{"inputs": [], "output": null, "is_c_variadic": false}}, "generics": {}, "header": {{"is_const": {is_const}, "is_async": {is_async}, "is_unsafe": {is_unsafe}, "abi": "Rust"}}, "has_body": true}}}}"#,
        empty_generics()
    )
}

/// A minimal document: a public root module named `mycrate` holding one
/// public struct `Foo`, whose documentation is the given JSON literal.
fn one_struct_doc(version: u32, foo_docs: &str) -> String {
    document(
        version,
        "null",
        &[
            entry(0, r#""mycrate""#, r#""public""#, "null", "null", &module_inner("[1]")),
            entry(1, r#""Foo""#, r#""public""#, foo_docs, "null", &unit_struct_inner()),
        ],
        "{}",
    )
}

#[test]
fn one_public_struct_renders_exactly_a_structs_section() {
    let json = one_struct_doc(46, "null");
    let out = parse_crate_info(&json).unwrap();
    assert_eq!(out, "# Crate: mycrate\n\n## Structs\n- **Foo**");
    assert!(!out.contains("## Modules"));
    assert!(!out.contains("## Enums"));
    assert!(!out.contains("## Traits"));
    assert!(!out.contains("## Functions"));
}

#[test]
fn crate_version_is_shown_in_header() {
    let json = document(
        53,
        r#""1.2.3""#,
        &[entry(
            0,
            r#""mycrate""#,
            r#""public""#,
            r#""Top docs.""#,
            "null",
            &module_inner("[]"),
        )],
        "{}",
    );
    let out = parse_crate_info(&json).unwrap();
    assert_eq!(out, "# Crate: mycrate v1.2.3\n\n## Documentation\nTop docs.");
}

#[test]
fn long_first_line_is_truncated_in_listing_but_full_in_describe() {
    let line: String = std::iter::repeat('a').take(150).collect();
    let json = one_struct_doc(46, &format!("\"{}\"", line));
    let out = parse_crate_info(&json).unwrap();
    let expected_snippet: String = std::iter::repeat('a').take(97).collect();
    assert!(out.contains(&format!("- **Foo**: {}...", expected_snippet)));
    // the listing holds only 97 of the 150 characters
    assert!(!out.contains(&line));

    let item = find_item(&json, "Foo").unwrap();
    assert!(item.contains(&line));
    assert!(item.contains("## Documentation"));
}

#[test]
fn non_public_item_is_excluded_from_every_category() {
    let json = document(
        50,
        "null",
        &[
            entry(0, r#""mycrate""#, r#""public""#, "null", "null", &module_inner("[1, 2]")),
            entry(1, r#""Hidden""#, r#""crate""#, "null", "null", &unit_struct_inner()),
            entry(
                2,
                r#""hidden_fn""#,
                r#""default""#,
                "null",
                "null",
                &function_inner(false, false, false),
            ),
        ],
        "{}",
    );
    let out = parse_crate_info(&json).unwrap();
    assert_eq!(out, "# Crate: mycrate");
    assert!(!out.contains("Hidden"));
    assert!(!out.contains("hidden_fn"));
}

#[test]
fn summary_partitions_public_children_by_kind() {
    let enum_inner = format!(
        r#"{{"enum": {{"generics": {}, "has_stripped_variants": false, "variants": [9, 10], "impls": []}}}}"#,
        empty_generics()
    );
    let trait_inner = format!(
        r#"{{"trait": {{"is_auto": false, "is_unsafe": false, "is_dyn_compatible": true, "items": [], "generics": {}, "bounds": [], "implementations": []}}}}"#,
        empty_generics()
    );
    let json = document(
        52,
        "null",
        &[
            entry(
                0,
                r#""mycrate""#,
                r#""public""#,
                "null",
                "null",
                &module_inner("[1, 2, 3, 4, 5]"),
            ),
            entry(
                1,
                r#""submod""#,
                r#""public""#,
                r#""A module.""#,
                "null",
                r#"{"module": {"is_crate": false, "items": [], "is_stripped": false}}"#,
            ),
            entry(2, r#""Foo""#, r#""public""#, "null", "null", &unit_struct_inner()),
            entry(3, r#""Color""#, r#""public""#, "null", "null", &enum_inner),
            entry(4, r#""Walk""#, r#""public""#, "null", "null", &trait_inner),
            entry(5, r#""run""#, r#""public""#, "null", "null", &function_inner(false, true, false)),
        ],
        "{}",
    );
    let out = parse_crate_info(&json).unwrap();
    assert_eq!(
        out,
        "# Crate: mycrate\n\
         \n## Modules\n- **submod**: A module.\n\
         \n## Structs\n- **Foo**\n\
         \n## Enums\n- **Color**\n\
         \n## Traits\n- **Walk**\n\
         \n## Functions\n- **run**"
    );
}

#[test]
fn root_not_found_for_every_version_adapter() {
    for version in [46u32, 48, 49, 50, 51, 52, 53] {
        let json = document(version, "null", &[], "{}");
        match parse_crate_info(&json) {
            Err(ParseError::RootNotFound { root_id }) => assert_eq!(root_id, 0),
            other => panic!("version {}: expected RootNotFound, got {:?}", version, other),
        }
        let msg = parse_crate_info(&json).unwrap_err().message();
        assert_eq!(msg, "Root item '0' not found in index");
    }
}

#[test]
fn unsupported_version_is_rejected_by_pipeline() {
    let json = r#"{"format_version": 47, "root": 0, "index": {}, "paths": {}}"#;
    match parse_crate_info(json) {
        Err(ParseError::UnsupportedVersion { version, supported }) => {
            assert_eq!(version, 47);
            assert_eq!(supported, vec![46, 48, 49, 50, 51, 52, 53]);
        }
        other => panic!("expected UnsupportedVersion, got {:?}", other),
    }
}

#[test]
fn malformed_structure_is_a_schema_mismatch() {
    // declared version is supported, but the index is not an object
    let json = r#"{"format_version": 46, "root": 0, "crate_version": null, "includes_private": false, "index": [], "paths": {}, "external_crates": {}, "target": {}}"#;
    match parse_crate_info(json) {
        Err(ParseError::SchemaMismatch) => {}
        other => panic!("expected SchemaMismatch, got {:?}", other),
    }
    // an item without a visibility field
    let bad_item = r#""0": {"id": 0, "crate_id": 0, "name": "x", "span": null, "docs": null, "links": {}, "attrs": [], "deprecation": null, "inner": {"module": {"is_crate": true, "items": [], "is_stripped": false}}}"#;
    let json2 = format!(
        r#"{{"format_version": 46, "root": 0, "crate_version": null, "includes_private": false, "index": {{{bad_item}}}, "paths": {{}}, "external_crates": {{}}, "target": {{}}}}"#
    );
    match parse_crate_info(&json2) {
        Err(ParseError::SchemaMismatch) => {}
        other => panic!("expected SchemaMismatch, got {:?}", other),
    }
}

#[test]
fn missing_unread_required_fields_are_a_schema_mismatch() {
    // a document without includes_private
    let no_includes_private = r#"{"format_version": 46, "root": 0, "crate_version": null, "index": {}, "paths": {}, "external_crates": {}, "target": {}}"#;
    match parse_crate_info(no_includes_private) {
        Err(ParseError::SchemaMismatch) => {}
        other => panic!("expected SchemaMismatch, got {:?}", other),
    }
    // an item without attrs
    let bad_item = r#""0": {"id": 0, "crate_id": 0, "name": "x", "span": null, "visibility": "public", "docs": null, "links": {}, "deprecation": null, "inner": {"module": {"is_crate": true, "items": [], "is_stripped": false}}}"#;
    let no_attrs = format!(
        r#"{{"format_version": 46, "root": 0, "crate_version": null, "includes_private": false, "index": {{{bad_item}}}, "paths": {{}}, "external_crates": {{}}, "target": {{}}}}"#
    );
    match parse_crate_info(&no_attrs) {
        Err(ParseError::SchemaMismatch) => {}
        other => panic!("expected SchemaMismatch, got {:?}", other),
    }
    // an item whose attrs hold a non-string
    let bad_attrs_item = r#""0": {"id": 0, "crate_id": 0, "name": "x", "span": null, "visibility": "public", "docs": null, "links": {}, "attrs": [7], "deprecation": null, "inner": {"module": {"is_crate": true, "items": [], "is_stripped": false}}}"#;
    let bad_attrs = format!(
        r#"{{"format_version": 46, "root": 0, "crate_version": null, "includes_private": false, "index": {{{bad_attrs_item}}}, "paths": {{}}, "external_crates": {{}}, "target": {{}}}}"#
    );
    match parse_crate_info(&bad_attrs) {
        Err(ParseError::SchemaMismatch) => {}
        other => panic!("expected SchemaMismatch, got {:?}", other),
    }
}

#[test]
fn find_resolves_via_path_table_with_kind_override() {
    let plain_struct_inner = format!(
        r#"{{"struct": {{"kind": {{"plain": {{"fields": [], "has_stripped_fields": false}}}}, "generics": {}, "impls": [7]}}}}"#,
        empty_generics()
    );
    let json = document(
        51,
        "null",
        &[
            entry(0, r#""mycrate""#, r#""public""#, "null", "null", &module_inner("[1]")),
            entry(1, r#""MyStruct""#, r#""public""#, r#""A struct.""#, "null", &plain_struct_inner),
        ],
        r#"{"1": {"crate_id": 0, "path": ["mycrate", "MyStruct"], "kind": "type_alias"}}"#,
    );
    // the paths phase hits, so the paths entry's kind label overrides the
    // item's own kind in the Type line
    let out = find_item(&json, "MyStruct").unwrap();
    assert!(out.starts_with("# MyStruct"));
    assert!(out.contains("**Type:** TypeAlias"));
    assert!(out.contains("## Documentation\nA struct."));
    assert!(out.contains("**Struct Type:** plain"));
    assert!(out.contains("**Implementations:** 1 impl block(s)"));
}

#[test]
fn find_falls_back_to_name_search() {
    let json = document(
        49,
        "null",
        &[
            entry(0, r#""mycrate""#, r#""public""#, "null", "null", &module_inner("[1]")),
            entry(1, r#""MyStruct""#, r#""public""#, "null", "null", &unit_struct_inner()),
        ],
        "{}",
    );
    let out = find_item(&json, "struct.MyStruct").unwrap();
    assert!(out.starts_with("# MyStruct"));
    // no paths entry matched, so the item's own kind names the type
    assert!(out.contains("**Type:** Struct"));
}

#[test]
fn find_unmatched_query_names_the_query() {
    let json = one_struct_doc(53, "null");
    match find_item(&json, "struct.Nonexistent") {
        Err(ParseError::ItemNotFound { item_path }) => {
            assert_eq!(item_path, "struct.Nonexistent");
        }
        other => panic!("expected ItemNotFound, got {:?}", other),
    }
    let msg = find_item(&json, "struct.Nonexistent").unwrap_err().message();
    assert_eq!(msg, "Item 'struct.Nonexistent' not found in crate");
    assert!(msg.contains("struct.Nonexistent"));
}

#[test]
fn describe_details_for_function_enum_and_trait() {
    let enum_inner = format!(
        r#"{{"enum": {{"generics": {}, "has_stripped_variants": false, "variants": [7, 8, 9], "impls": [4]}}}}"#,
        empty_generics()
    );
    let trait_inner = format!(
        r#"{{"trait": {{"is_auto": true, "is_unsafe": false, "is_dyn_compatible": false, "items": [5, 6], "generics": {}, "bounds": [], "implementations": []}}}}"#,
        empty_generics()
    );
    let json = document(
        48,
        "null",
        &[
            entry(0, r#""mycrate""#, r#""public""#, "null", "null", &module_inner("[1, 2, 3]")),
            entry(
                1,
                r#""launch""#,
                r#""public""#,
                "null",
                r#"{"since": null, "note": "old"}"#,
                &function_inner(true, false, true),
            ),
            entry(2, r#""Color""#, r#""crate""#, "null", "null", &enum_inner),
            entry(3, r#""Marker""#, r#""public""#, "null", "null", &trait_inner),
        ],
        "{}",
    );
    let f = find_item(&json, "launch").unwrap();
    assert!(f.contains("**Type:** Function"));
    assert!(f.contains("**Attributes:** const, unsafe"));
    assert!(f.contains("**Deprecated**"));

    let e = find_item(&json, "Color").unwrap();
    assert!(e.contains("**Type:** Enum"));
    assert!(e.contains("**Visibility:** Crate"));
    assert!(e.contains("**Variants:** 3 variant(s)"));
    assert!(e.contains("**Implementations:** 1 impl block(s)"));

    let t = find_item(&json, "Marker").unwrap();
    assert!(t.contains("**Type:** Trait"));
    assert!(t.contains("**Attributes:** auto"));
    assert!(t.contains("**Items:** 2 associated item(s)"));
}
