use docsrs_mcp::tools::search_crates::{
    crate_names, default_limit, format_search_results, parse_search_response,
};

const SAMPLE: &str = r#"{
  "crates": [
    {"name": "serde", "description": "A serialization framework", "downloads": 1234567,
     "recent_downloads": 7890, "max_version": "1.0.200", "documentation": "https://docs.rs/serde",
     "repository": null, "homepage": null},
    {"name": "serde_json", "description": null, "downloads": 1000,
     "recent_downloads": 0, "max_version": "1.0.100", "documentation": null}
  ],
  "meta": {"total": 42}
}"#;

#[test]
fn default_limit_is_ten() {
    assert_eq!(default_limit(), 10);
}

#[test]
fn search_response_is_decoded() {
    let r = parse_search_response(SAMPLE).unwrap();
    assert_eq!(r.total, 42);
    assert_eq!(r.crates.len(), 2);
    assert_eq!(r.crates[0].name, "serde");
    assert_eq!(r.crates[0].downloads, 1234567);
    assert_eq!(r.crates[0].description.as_deref(), Some("A serialization framework"));
    assert_eq!(r.crates[1].name, "serde_json");
    assert_eq!(r.crates[1].description, None);
    assert_eq!(r.crates[1].documentation, None);
}

#[test]
fn malformed_search_response_is_rejected() {
    assert!(parse_search_response("not json").is_none());
    assert!(parse_search_response(r#"{"crates": 3, "meta": {"total": 1}}"#).is_none());
    assert!(parse_search_response(r#"{"crates": []}"#).is_none());
}

#[test]
fn search_results_are_formatted() {
    let r = parse_search_response(SAMPLE).unwrap();
    let out = format_search_results("serde", &r);
    let expected = "Found 42 crates matching \"serde\" (showing top 2):\n\n\
        1. **serde** v1.0.200\n   A serialization framework\n   Downloads: 1,234,567 (7,890 recent)\n   Docs: https://docs.rs/serde\n\n\
        2. **serde_json** v1.0.100\n   Downloads: 1,000 (0 recent)\n\n";
    assert_eq!(out, expected);
}

#[test]
fn empty_search_results_name_the_query() {
    let r = parse_search_response(r#"{"crates": [], "meta": {"total": 0}}"#).unwrap();
    let out = format_search_results("zzz-no-such-crate", &r);
    assert_eq!(out, "No crates found matching \"zzz-no-such-crate\"");
}

#[test]
fn crate_names_are_extracted_for_suggestions() {
    let r = parse_search_response(SAMPLE).unwrap();
    let names = crate_names(&r);
    assert_eq!(names, vec!["serde".to_string(), "serde_json".to_string()]);
}
