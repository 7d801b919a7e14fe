//! Version sniffing: read the schema version out of a raw document without
//! committing to any version's full structural shape.

use vstd::prelude::*;

use crate::errors::ParseError;
use crate::json::{json_u64_field, u64_field_of};

verus! {

/// The one field of a documentation export that version sniffing reads.
#[derive(Clone, Copy, Debug, PartialEq, Eq, Structural)]
pub struct RustdocVersionInfo {
    pub format_version: u32,
}

/// The schema version a raw document declares: its top-level
/// `format_version` integer, when the text parses and the field is there
/// and fits the version range. Every other part of the document is
/// ignored.
pub open spec fn sniffed_version(s: Seq<char>) -> Option<u32> {
    match u64_field_of(s, "format_version"@) {
        Some(n) => if n <= u32::MAX as u64 {
            Some(n as u32)
        } else {
            None
        },
        None => None,
    }
}

/// Read the schema version from the raw document. This succeeds exactly
/// when the text sniffs to a version: only syntactic validity of the
/// document and the presence of an integer `format_version` field are
/// required.
pub fn get_format_version(json_str: &str) -> (r: Result<u32, ParseError>)
    ensures
        match r {
            Ok(v) => sniffed_version(json_str@) == Some(v),
            Err(e) => e is VersionField && sniffed_version(json_str@) is None,
        },
{
    match sniff_version_info(json_str) {
        Ok(vi) => Ok(vi.format_version),
        Err(e) => Err(e),
    }
}

/// The sniffed version field, as a value of its own.
pub fn sniff_version_info(json_str: &str) -> (r: Result<RustdocVersionInfo, ParseError>)
    ensures
        match r {
            Ok(vi) => sniffed_version(json_str@) == Some(vi.format_version),
            Err(e) => e is VersionField && sniffed_version(json_str@) is None,
        },
{
    let field = match json_u64_field(json_str, "format_version") {
        Some(n) => n,
        None => {
            return Err(ParseError::VersionField);
        },
    };
    if field > u32::MAX as u64 {
        return Err(ParseError::VersionField);
    }
    Ok(RustdocVersionInfo { format_version: field as u32 })
}

} // verus!
