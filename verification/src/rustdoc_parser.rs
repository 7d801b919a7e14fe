//! The multi-version parsing pipeline: version sniffing, registry dispatch,
//! per-version adapters, and the shared extraction over the intermediate
//! model.

pub mod registry;
pub mod version;

mod decode;
pub mod render;
pub mod resolve;
mod v46;
mod v48;
mod v49;
mod v50;
mod v51;
mod v52;
mod v53;

use vstd::prelude::*;

use crate::errors::ParseError;
use crate::model::{lookup, Document};

verus! {

/// The version layer of the pipeline, stated once for every entry point:
/// the version-field error comes exactly when the text sniffs to no
/// version; the unsupported-version error comes exactly when it sniffs to
/// a version outside the registry, and then carries that version and the
/// whole supported set; anything else means the text sniffed to a
/// supported version.
pub open spec fn version_layer(s: Seq<char>, r: Result<String, ParseError>) -> bool {
    &&& ((r matches Err(e) && e is VersionField) <==> version::sniffed_version(s) is None)
    &&& ((r matches Err(e) && e matches ParseError::UnsupportedVersion { .. }) <==> (
    version::sniffed_version(s) matches Some(v) && registry::adapter_for(v as u64) is None))
    &&& (r matches Err(e) ==> (e matches ParseError::UnsupportedVersion {
        version: ver,
        supported,
    } ==> version::sniffed_version(s) == Some(ver as u32) && supported@
        == registry::supported_versions()))
    &&& (!(r matches Err(e) && (e is VersionField || e matches ParseError::UnsupportedVersion {
        .. })) ==> (version::sniffed_version(s) matches Some(v) && registry::adapter_for(
        v as u64,
    ) is Some))
}

/// Sniff the version, resolve its adapter in the registry, and project
/// the raw document into the intermediate model.
pub fn parse_document(json_str: &str) -> (r: Result<Document, ParseError>)
    ensures
        r matches Ok(doc) ==> doc.wf() && registry::adapter_for(doc.schema_version) is Some
            && version::sniffed_version(json_str@) == Some(doc.schema_version as u32),
        ((r matches Err(e) && e is VersionField) <==> version::sniffed_version(
            json_str@,
        ) is None),
        ((r matches Err(e) && e matches ParseError::UnsupportedVersion { .. }) <==> (
        version::sniffed_version(json_str@) matches Some(v) && registry::adapter_for(
            v as u64,
        ) is None)),
        r matches Err(e) ==> (e matches ParseError::UnsupportedVersion {
            version: ver,
            supported,
        } ==> version::sniffed_version(json_str@) == Some(ver as u32) && supported@
            == registry::supported_versions()),
        r matches Err(e) && e is SchemaMismatch ==> (version::sniffed_version(
            json_str@,
        ) matches Some(v) && registry::adapter_for(v as u64) is Some),
        r matches Err(e) ==> e is VersionField || e matches ParseError::UnsupportedVersion {
            ..
        } || e is SchemaMismatch,
{
    let version = match version::get_format_version(json_str) {
        Ok(v) => v,
        Err(e) => {
            return Err(e);
        },
    };
    let adapter = match registry::resolve(version as u64) {
        Ok(a) => a,
        Err(e) => {
            proof {
                assert(((version as u64) as u32) == version);
            }
            return Err(e);
        },
    };
    let r = adapter.parse(json_str);
    proof {
        if r is Ok {
            assert(registry::adapter_for(adapter.version_spec()) == Some(adapter));
        }
    }
    r
}

/// Parse the main crate information from a raw document: the rendered
/// crate overview of whichever supported schema version it declares.
pub fn parse_crate_info(json_str: &str) -> (r: Result<String, ParseError>)
    ensures
        r matches Ok(s) ==> exists|doc: Document|
            #[trigger] render::summary_text(doc) == s@ && doc.wf() && lookup(
                doc.index@,
                doc.root_id,
            ) is Some && version::sniffed_version(json_str@) == Some(
                doc.schema_version as u32,
            ) && registry::adapter_for(doc.schema_version) is Some,
        r matches Err(e) ==> {
            ||| e is VersionField
            ||| (e matches ParseError::UnsupportedVersion { version, supported }
                && registry::adapter_for(version) is None && supported@
                == registry::supported_versions())
            ||| e is SchemaMismatch
            ||| e matches ParseError::RootNotFound { .. }
        },
        version_layer(json_str@, r),
{
    let doc = match parse_document(json_str) {
        Ok(d) => d,
        Err(e) => {
            return Err(e);
        },
    };
    let r = render::summarize(&doc);
    proof {
        if r is Ok {
            let s = r->Ok_0;
            assert(render::summary_text(doc) == s@ && doc.wf() && lookup(
                doc.index@,
                doc.root_id,
            ) is Some);
        }
    }
    r
}

/// Find and render one named item from a raw document, resolving it by
/// the two-phase strategy of the resolver.
pub fn find_item(json_str: &str, item_path: &str) -> (r: Result<String, ParseError>)
    ensures
        r matches Ok(s) ==> exists|doc: Document|
            #[trigger] resolve::resolution(doc, item_path@) matches Some((it, lbl)) && doc.wf()
                && s@ == render::describe_text(it, lbl) && version::sniffed_version(json_str@)
                == Some(doc.schema_version as u32) && registry::adapter_for(
                doc.schema_version,
            ) is Some,
        r matches Err(e) ==> {
            ||| e is VersionField
            ||| (e matches ParseError::UnsupportedVersion { version, supported }
                && registry::adapter_for(version) is None && supported@
                == registry::supported_versions())
            ||| e is SchemaMismatch
            ||| (e matches ParseError::ItemNotFound { item_path: p } && p@ == item_path@)
        },
        version_layer(json_str@, r),
{
    let doc = match parse_document(json_str) {
        Ok(d) => d,
        Err(e) => {
            return Err(e);
        },
    };
    let r = resolve::find_in_document(&doc, item_path);
    proof {
        if r is Ok {
            let s = r->Ok_0;
            assert(resolve::resolution(doc, item_path@) matches Some((it, lbl)) && doc.wf()
                && s@ == render::describe_text(it, lbl));
        }
    }
    r
}

} // verus!
