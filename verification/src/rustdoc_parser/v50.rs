//! The adapter for schema version 50 of the documentation export.
//!
//! The fields this engine reads share their shape with the neighbouring
//! supported versions, so the structural projection is the shared decoder;
//! this adapter accepts a document only under its own version tag.

use vstd::prelude::*;

use crate::errors::ParseError;
use crate::json::{json_u64_field, parse_json, u64_field_of};
use crate::model::Document;
use crate::rustdoc_parser::decode::document_from_value;

verus! {

/// Parse a raw document against schema version 50 and project it into the
/// intermediate model. A document whose declared version is anything but
/// 50 is rejected; the rest of the structure is opaque JSON, so what is
/// pinned is that a success is a well-formed document of this version and
/// every failure is a mismatch.
pub fn parse(raw: &str) -> (r: Result<Document, ParseError>)
    ensures
        r matches Ok(doc) ==> doc.wf() && doc.schema_version == 50 && u64_field_of(
            raw@,
            "format_version"@,
        ) == Some(50u64),
        r matches Err(e) ==> e is SchemaMismatch,
        u64_field_of(raw@, "format_version"@) != Some(50u64) ==> r is Err,
{
    match json_u64_field(raw, "format_version") {
        Some(n) => {
            if n != 50 {
                return Err(ParseError::SchemaMismatch);
            }
        },
        None => {
            return Err(ParseError::SchemaMismatch);
        },
    }
    let v = match parse_json(raw) {
        Ok(v) => v,
        Err(_) => {
            return Err(ParseError::SchemaMismatch);
        },
    };
    document_from_value(&v, 50)
}

} // verus!
