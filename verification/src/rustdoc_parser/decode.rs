//! The structural projection from a parsed JSON value into the
//! intermediate model.
//!
//! Every field this engine reads has the same shape in all supported
//! schema versions (the in-range format bumps changed material the engine
//! does not read), so the per-version adapters share this decoder; each
//! adapter insists on its own version tag before delegating here.
//!
//! The decoder holds a document to its version's required structure: the
//! presence and type of every required field of the document, of each
//! item, of each paths entry, and of the payloads the model keeps, are
//! checked; the payloads of kinds the model keeps only a label for are
//! carried as opaque values and not descended into.
//!
//! The JSON value is opaque to the verifier, so these functions promise
//! what holds of every outcome: a successful decode yields a well-formed
//! document carrying the expected schema version, and every failure is a
//! `SchemaMismatch`.

use vstd::prelude::*;
use vstd::string::*;

use serde_json::Value;

use crate::errors::ParseError;
use crate::json::{
    json_as_array, json_as_bool, json_as_str, json_as_u64, json_get, json_is_null, json_is_object,
    json_object_keys,
};
use crate::model::{Document, Item, ItemKind, PathInfo, StructKind, Visibility};
use crate::text::{parse_u64_dec, str_eq};

verus! {

/// A required field that must be an object.
fn check_object_field(parent: &Value, field: &str) -> (r: Result<(), ParseError>)
    ensures
        r matches Err(e) ==> e is SchemaMismatch,
{
    match json_get(parent, field) {
        Some(v) => {
            if json_is_object(v) {
                Ok(())
            } else {
                Err(ParseError::SchemaMismatch)
            }
        },
        None => Err(ParseError::SchemaMismatch),
    }
}

/// A required field that must be an array.
fn check_array_field(parent: &Value, field: &str) -> (r: Result<(), ParseError>)
    ensures
        r matches Err(e) ==> e is SchemaMismatch,
{
    match json_get(parent, field) {
        Some(v) => match json_as_array(v) {
            Some(_) => Ok(()),
            None => Err(ParseError::SchemaMismatch),
        },
        None => Err(ParseError::SchemaMismatch),
    }
}

/// A required field that must be an array of strings.
fn check_string_array_field(parent: &Value, field: &str) -> (r: Result<(), ParseError>)
    ensures
        r matches Err(e) ==> e is SchemaMismatch,
{
    let arr = match json_get(parent, field) {
        Some(v) => match json_as_array(v) {
            Some(a) => a,
            None => {
                return Err(ParseError::SchemaMismatch);
            },
        },
        None => {
            return Err(ParseError::SchemaMismatch);
        },
    };
    let mut i: usize = 0;
    while i < arr.len()
        invariant
            0 <= i <= arr@.len(),
        decreases arr@.len() - i,
    {
        if json_as_str(&arr[i]).is_none() {
            return Err(ParseError::SchemaMismatch);
        }
        i += 1;
    }
    Ok(())
}

/// A required field that must be an integer in the identifier range.
fn check_u32_field(parent: &Value, field: &str) -> (r: Result<(), ParseError>)
    ensures
        r matches Err(e) ==> e is SchemaMismatch,
{
    match json_get(parent, field) {
        Some(v) => match json_as_u64(v) {
            Some(n) => {
                if n <= u32::MAX as u64 {
                    Ok(())
                } else {
                    Err(ParseError::SchemaMismatch)
                }
            },
            None => Err(ParseError::SchemaMismatch),
        },
        None => Err(ParseError::SchemaMismatch),
    }
}

/// An optional structured field: absent or null or an object.
fn check_opt_object_field(parent: &Value, field: &str) -> (r: Result<(), ParseError>)
    ensures
        r matches Err(e) ==> e is SchemaMismatch,
{
    match json_get(parent, field) {
        Some(v) => {
            if json_is_null(v) || json_is_object(v) {
                Ok(())
            } else {
                Err(ParseError::SchemaMismatch)
            }
        },
        None => Ok(()),
    }
}

/// An optional string field: absent or null is `None`; any other
/// non-string value is a mismatch.
fn decode_opt_string(parent: &Value, field: &str) -> (r: Result<Option<String>, ParseError>)
    ensures
        r matches Err(e) ==> e is SchemaMismatch,
{
    match json_get(parent, field) {
        None => Ok(None),
        Some(v) => {
            if json_is_null(v) {
                Ok(None)
            } else {
                match json_as_str(v) {
                    Some(s) => Ok(Some(s.to_owned())),
                    None => Err(ParseError::SchemaMismatch),
                }
            }
        },
    }
}

/// An item identifier: an integer in the identifier range.
fn decode_id(v: &Value) -> (r: Result<u64, ParseError>)
    ensures
        r matches Err(e) ==> e is SchemaMismatch,
{
    match json_as_u64(v) {
        Some(n) => {
            if n <= u32::MAX as u64 {
                Ok(n)
            } else {
                Err(ParseError::SchemaMismatch)
            }
        },
        None => Err(ParseError::SchemaMismatch),
    }
}

/// An array of item identifiers.
fn decode_id_list(v: &Value) -> (r: Result<Vec<u64>, ParseError>)
    ensures
        r matches Err(e) ==> e is SchemaMismatch,
{
    let arr = match json_as_array(v) {
        Some(a) => a,
        None => {
            return Err(ParseError::SchemaMismatch);
        },
    };
    let mut ids: Vec<u64> = Vec::new();
    let mut i: usize = 0;
    while i < arr.len()
        invariant
            0 <= i <= arr@.len(),
        decreases arr@.len() - i,
    {
        match decode_id(&arr[i]) {
            Ok(id) => ids.push(id),
            Err(e) => {
                return Err(e);
            },
        }
        i += 1;
    }
    Ok(ids)
}

/// The length of an array field, as a count.
fn array_len_u64(v: &Value) -> (r: Result<u64, ParseError>)
    ensures
        r matches Err(e) ==> e is SchemaMismatch,
{
    match json_as_array(v) {
        Some(a) => Ok(a.len() as u64),
        None => Err(ParseError::SchemaMismatch),
    }
}

/// A required boolean field of an object.
fn decode_bool_field(obj: &Value, field: &str) -> (r: Result<bool, ParseError>)
    ensures
        r matches Err(e) ==> e is SchemaMismatch,
{
    match json_get(obj, field) {
        Some(v) => match json_as_bool(v) {
            Some(b) => Ok(b),
            None => Err(ParseError::SchemaMismatch),
        },
        None => Err(ParseError::SchemaMismatch),
    }
}

/// The visibility of an item: one of the three plain tags, or the
/// restricted form, which carries a payload the model does not keep.
fn decode_visibility(v: &Value) -> (r: Result<Visibility, ParseError>)
    ensures
        r matches Err(e) ==> e is SchemaMismatch,
{
    match json_as_str(v) {
        Some(s) => {
            if str_eq(s, "public") {
                Ok(Visibility::Public)
            } else if str_eq(s, "default") {
                Ok(Visibility::Default)
            } else if str_eq(s, "crate") {
                Ok(Visibility::Crate)
            } else {
                Err(ParseError::SchemaMismatch)
            }
        },
        None => {
            if json_get(v, "restricted").is_some() {
                Ok(Visibility::Restricted)
            } else {
                Err(ParseError::SchemaMismatch)
            }
        },
    }
}

/// Whether a struct is plain, tuple-like, or a unit struct.
fn decode_struct_kind(v: &Value) -> (r: Result<StructKind, ParseError>)
    ensures
        r matches Err(e) ==> e is SchemaMismatch,
{
    match json_as_str(v) {
        Some(s) => {
            if str_eq(s, "unit") {
                Ok(StructKind::Unit)
            } else {
                Err(ParseError::SchemaMismatch)
            }
        },
        None => {
            if json_get(v, "plain").is_some() {
                Ok(StructKind::Plain)
            } else if json_get(v, "tuple").is_some() {
                Ok(StructKind::Tuple)
            } else {
                Err(ParseError::SchemaMismatch)
            }
        },
    }
}

/// The display label for an item kind that carries no kind-specific
/// rendering, by its tag in the document.
fn item_tag_label(tag: &str) -> (r: Option<&'static str>) {
    if str_eq(tag, "extern_crate") {
        Some("External Crate")
    } else if str_eq(tag, "use") {
        Some("Import")
    } else if str_eq(tag, "union") {
        Some("Union")
    } else if str_eq(tag, "struct_field") {
        Some("Struct Field")
    } else if str_eq(tag, "variant") {
        Some("Enum Variant")
    } else if str_eq(tag, "trait_alias") {
        Some("Trait Alias")
    } else if str_eq(tag, "impl") {
        Some("Implementation")
    } else if str_eq(tag, "type_alias") {
        Some("Type Alias")
    } else if str_eq(tag, "constant") {
        Some("Constant")
    } else if str_eq(tag, "static") {
        Some("Static")
    } else if str_eq(tag, "extern_type") {
        Some("External Type")
    } else if str_eq(tag, "macro") {
        Some("Macro")
    } else if str_eq(tag, "proc_macro") {
        Some("Procedural Macro")
    } else if str_eq(tag, "primitive") {
        Some("Primitive")
    } else if str_eq(tag, "assoc_const") {
        Some("Associated Constant")
    } else if str_eq(tag, "assoc_type") {
        Some("Associated Type")
    } else {
        None
    }
}

/// The kind label for an entry of the paths table, by its tag in the
/// document. The paths table distinguishes the procedural macro kinds and
/// keywords, which the item index does not.
fn path_kind_label(tag: &str) -> (r: Option<&'static str>) {
    if str_eq(tag, "module") {
        Some("Module")
    } else if str_eq(tag, "extern_crate") {
        Some("ExternCrate")
    } else if str_eq(tag, "use") {
        Some("Use")
    } else if str_eq(tag, "struct") {
        Some("Struct")
    } else if str_eq(tag, "struct_field") {
        Some("StructField")
    } else if str_eq(tag, "union") {
        Some("Union")
    } else if str_eq(tag, "enum") {
        Some("Enum")
    } else if str_eq(tag, "variant") {
        Some("Variant")
    } else if str_eq(tag, "function") {
        Some("Function")
    } else if str_eq(tag, "type_alias") {
        Some("TypeAlias")
    } else if str_eq(tag, "constant") {
        Some("Constant")
    } else if str_eq(tag, "trait") {
        Some("Trait")
    } else if str_eq(tag, "trait_alias") {
        Some("TraitAlias")
    } else if str_eq(tag, "impl") {
        Some("Impl")
    } else if str_eq(tag, "static") {
        Some("Static")
    } else if str_eq(tag, "extern_type") {
        Some("ExternType")
    } else if str_eq(tag, "macro") {
        Some("Macro")
    } else if str_eq(tag, "proc_attribute") {
        Some("ProcAttribute")
    } else if str_eq(tag, "proc_derive") {
        Some("ProcDerive")
    } else if str_eq(tag, "assoc_const") {
        Some("AssocConst")
    } else if str_eq(tag, "assoc_type") {
        Some("AssocType")
    } else if str_eq(tag, "primitive") {
        Some("Primitive")
    } else if str_eq(tag, "keyword") {
        Some("Keyword")
    } else {
        None
    }
}

/// The kind of an item from its tagged-union field: the five kinds the
/// renderer details are decoded structurally, every other known tag keeps
/// its label only, and an unknown tag is a mismatch.
fn decode_kind(v: &Value) -> (r: Result<ItemKind, ParseError>)
    ensures
        r matches Err(e) ==> e is SchemaMismatch,
{
    match json_as_str(v) {
        Some(s) => {
            // the one payload-free kind is serialized as a bare tag
            if str_eq(s, "extern_type") {
                return Ok(ItemKind::Other { label: String::from_str("External Type") });
            }
            return Err(ParseError::SchemaMismatch);
        },
        None => {},
    }
    let keys = match json_object_keys(v) {
        Some(k) => k,
        None => {
            return Err(ParseError::SchemaMismatch);
        },
    };
    if keys.len() != 1 {
        return Err(ParseError::SchemaMismatch);
    }
    let tag = &keys[0];
    let payload = match json_get(v, tag.as_str()) {
        Some(p) => p,
        None => {
            return Err(ParseError::SchemaMismatch);
        },
    };
    if str_eq(tag.as_str(), "module") {
        let items_v = match json_get(payload, "items") {
            Some(x) => x,
            None => {
                return Err(ParseError::SchemaMismatch);
            },
        };
        if let Err(e) = decode_bool_field(payload, "is_crate") {
            return Err(e);
        }
        if let Err(e) = decode_bool_field(payload, "is_stripped") {
            return Err(e);
        }
        match decode_id_list(items_v) {
            Ok(children) => Ok(ItemKind::Module { children }),
            Err(e) => Err(e),
        }
    } else if str_eq(tag.as_str(), "struct") {
        let kind_v = match json_get(payload, "kind") {
            Some(x) => x,
            None => {
                return Err(ParseError::SchemaMismatch);
            },
        };
        let struct_kind = match decode_struct_kind(kind_v) {
            Ok(k) => k,
            Err(e) => {
                return Err(e);
            },
        };
        let impls_v = match json_get(payload, "impls") {
            Some(x) => x,
            None => {
                return Err(ParseError::SchemaMismatch);
            },
        };
        let impl_count = match array_len_u64(impls_v) {
            Ok(n) => n,
            Err(e) => {
                return Err(e);
            },
        };
        if let Err(e) = check_object_field(payload, "generics") {
            return Err(e);
        }
        Ok(ItemKind::Struct { struct_kind, impl_count })
    } else if str_eq(tag.as_str(), "enum") {
        let variants_v = match json_get(payload, "variants") {
            Some(x) => x,
            None => {
                return Err(ParseError::SchemaMismatch);
            },
        };
        let variant_count = match array_len_u64(variants_v) {
            Ok(n) => n,
            Err(e) => {
                return Err(e);
            },
        };
        let impls_v = match json_get(payload, "impls") {
            Some(x) => x,
            None => {
                return Err(ParseError::SchemaMismatch);
            },
        };
        let impl_count = match array_len_u64(impls_v) {
            Ok(n) => n,
            Err(e) => {
                return Err(e);
            },
        };
        if let Err(e) = check_object_field(payload, "generics") {
            return Err(e);
        }
        if let Err(e) = decode_bool_field(payload, "has_stripped_variants") {
            return Err(e);
        }
        Ok(ItemKind::Enum { variant_count, impl_count })
    } else if str_eq(tag.as_str(), "function") {
        let header = match json_get(payload, "header") {
            Some(x) => x,
            None => {
                return Err(ParseError::SchemaMismatch);
            },
        };
        let is_const = match decode_bool_field(header, "is_const") {
            Ok(b) => b,
            Err(e) => {
                return Err(e);
            },
        };
        let is_async = match decode_bool_field(header, "is_async") {
            Ok(b) => b,
            Err(e) => {
                return Err(e);
            },
        };
        let is_unsafe = match decode_bool_field(header, "is_unsafe") {
            Ok(b) => b,
            Err(e) => {
                return Err(e);
            },
        };
        if json_get(header, "abi").is_none() {
            return Err(ParseError::SchemaMismatch);
        }
        if let Err(e) = check_object_field(payload, "sig") {
            return Err(e);
        }
        if let Err(e) = check_object_field(payload, "generics") {
            return Err(e);
        }
        if let Err(e) = decode_bool_field(payload, "has_body") {
            return Err(e);
        }
        Ok(ItemKind::Function { is_const, is_async, is_unsafe })
    } else if str_eq(tag.as_str(), "trait") {
        let is_auto = match decode_bool_field(payload, "is_auto") {
            Ok(b) => b,
            Err(e) => {
                return Err(e);
            },
        };
        let is_unsafe = match decode_bool_field(payload, "is_unsafe") {
            Ok(b) => b,
            Err(e) => {
                return Err(e);
            },
        };
        let items_v = match json_get(payload, "items") {
            Some(x) => x,
            None => {
                return Err(ParseError::SchemaMismatch);
            },
        };
        let assoc_item_count = match array_len_u64(items_v) {
            Ok(n) => n,
            Err(e) => {
                return Err(e);
            },
        };
        if let Err(e) = decode_bool_field(payload, "is_dyn_compatible") {
            return Err(e);
        }
        if let Err(e) = check_object_field(payload, "generics") {
            return Err(e);
        }
        if let Err(e) = check_array_field(payload, "bounds") {
            return Err(e);
        }
        if let Err(e) = check_array_field(payload, "implementations") {
            return Err(e);
        }
        Ok(ItemKind::Trait { is_auto, is_unsafe, assoc_item_count })
    } else {
        match item_tag_label(tag.as_str()) {
            Some(label) => Ok(ItemKind::Other { label: String::from_str(label) }),
            None => Err(ParseError::SchemaMismatch),
        }
    }
}

/// One entry of the item index.
fn decode_item(v: &Value) -> (r: Result<Item, ParseError>)
    ensures
        r matches Err(e) ==> e is SchemaMismatch,
{
    if let Err(e) = check_u32_field(v, "id") {
        return Err(e);
    }
    if let Err(e) = check_u32_field(v, "crate_id") {
        return Err(e);
    }
    if let Err(e) = check_opt_object_field(v, "span") {
        return Err(e);
    }
    if let Err(e) = check_object_field(v, "links") {
        return Err(e);
    }
    if let Err(e) = check_string_array_field(v, "attrs") {
        return Err(e);
    }
    let name = match decode_opt_string(v, "name") {
        Ok(n) => n,
        Err(e) => {
            return Err(e);
        },
    };
    let vis_v = match json_get(v, "visibility") {
        Some(x) => x,
        None => {
            return Err(ParseError::SchemaMismatch);
        },
    };
    let visibility = match decode_visibility(vis_v) {
        Ok(x) => x,
        Err(e) => {
            return Err(e);
        },
    };
    let docs = match decode_opt_string(v, "docs") {
        Ok(d) => d,
        Err(e) => {
            return Err(e);
        },
    };
    let deprecated = match json_get(v, "deprecation") {
        None => false,
        Some(d) => {
            if json_is_null(d) {
                false
            } else if json_is_object(d) {
                true
            } else {
                return Err(ParseError::SchemaMismatch);
            }
        },
    };
    let inner = match json_get(v, "inner") {
        Some(x) => x,
        None => {
            return Err(ParseError::SchemaMismatch);
        },
    };
    let kind = match decode_kind(inner) {
        Ok(k) => k,
        Err(e) => {
            return Err(e);
        },
    };
    Ok(Item { name, visibility, docs, deprecated, kind })
}

/// One entry of the paths table.
fn decode_path_info(v: &Value) -> (r: Result<PathInfo, ParseError>)
    ensures
        r matches Err(e) ==> e is SchemaMismatch,
{
    if let Err(e) = check_u32_field(v, "crate_id") {
        return Err(e);
    }
    let path_v = match json_get(v, "path") {
        Some(x) => x,
        None => {
            return Err(ParseError::SchemaMismatch);
        },
    };
    let arr = match json_as_array(path_v) {
        Some(a) => a,
        None => {
            return Err(ParseError::SchemaMismatch);
        },
    };
    let mut segments: Vec<String> = Vec::new();
    let mut i: usize = 0;
    while i < arr.len()
        invariant
            0 <= i <= arr@.len(),
        decreases arr@.len() - i,
    {
        match json_as_str(&arr[i]) {
            Some(s) => segments.push(s.to_owned()),
            None => {
                return Err(ParseError::SchemaMismatch);
            },
        }
        i += 1;
    }
    let kind_v = match json_get(v, "kind") {
        Some(x) => x,
        None => {
            return Err(ParseError::SchemaMismatch);
        },
    };
    let kind = match json_as_str(kind_v) {
        Some(s) => match path_kind_label(s) {
            Some(label) => String::from_str(label),
            None => {
                return Err(ParseError::SchemaMismatch);
            },
        },
        None => {
            return Err(ParseError::SchemaMismatch);
        },
    };
    Ok(PathInfo { path: segments, kind })
}

/// Whether an identifier already occurs in the accumulated index.
fn index_has_id(index: &Vec<(u64, Item)>, id: u64) -> (r: bool)
    ensures
        r == exists|k: int| 0 <= k < index@.len() && index@[k].0 == id,
{
    let mut i: usize = 0;
    while i < index.len()
        invariant
            0 <= i <= index@.len(),
            forall|k: int| 0 <= k < i ==> index@[k].0 != id,
        decreases index@.len() - i,
    {
        if index[i].0 == id {
            return true;
        }
        i += 1;
    }
    false
}

/// Project a parsed document into the intermediate model, requiring the
/// declared version tag to match `expect_version`. A success is always a
/// well-formed document of that schema version; the structure of the JSON
/// value is otherwise opaque, so every failure is a mismatch.
pub(crate) fn document_from_value(v: &Value, expect_version: u64) -> (r: Result<
    Document,
    ParseError,
>)
    ensures
        r matches Ok(doc) ==> doc.wf() && doc.schema_version == expect_version,
        r matches Err(e) ==> e is SchemaMismatch,
{
    let fv = match json_get(v, "format_version") {
        Some(x) => match json_as_u64(x) {
            Some(n) => n,
            None => {
                return Err(ParseError::SchemaMismatch);
            },
        },
        None => {
            return Err(ParseError::SchemaMismatch);
        },
    };
    if fv != expect_version {
        return Err(ParseError::SchemaMismatch);
    }
    let root_v = match json_get(v, "root") {
        Some(x) => x,
        None => {
            return Err(ParseError::SchemaMismatch);
        },
    };
    let root_id = match decode_id(root_v) {
        Ok(id) => id,
        Err(e) => {
            return Err(e);
        },
    };
    let crate_version = match decode_opt_string(v, "crate_version") {
        Ok(cv) => cv,
        Err(e) => {
            return Err(e);
        },
    };
    if let Err(e) = decode_bool_field(v, "includes_private") {
        return Err(e);
    }
    if let Err(e) = check_object_field(v, "external_crates") {
        return Err(e);
    }
    if let Err(e) = check_object_field(v, "target") {
        return Err(e);
    }
    let index_v = match json_get(v, "index") {
        Some(x) => x,
        None => {
            return Err(ParseError::SchemaMismatch);
        },
    };
    let index_keys = match json_object_keys(index_v) {
        Some(k) => k,
        None => {
            return Err(ParseError::SchemaMismatch);
        },
    };
    let mut index: Vec<(u64, Item)> = Vec::new();
    let mut i: usize = 0;
    while i < index_keys.len()
        invariant
            0 <= i <= index_keys@.len(),
            forall|p: int, q: int|
                0 <= p < q < index@.len() ==> index@[p].0 != index@[q].0,
        decreases index_keys@.len() - i,
    {
        let key = &index_keys[i];
        let id = match parse_u64_dec(key.as_str()) {
            Some(n) => n,
            None => {
                return Err(ParseError::SchemaMismatch);
            },
        };
        if id > u32::MAX as u64 {
            return Err(ParseError::SchemaMismatch);
        }
        if index_has_id(&index, id) {
            return Err(ParseError::SchemaMismatch);
        }
        let item_v = match json_get(index_v, key.as_str()) {
            Some(x) => x,
            None => {
                return Err(ParseError::SchemaMismatch);
            },
        };
        let item = match decode_item(item_v) {
            Ok(it) => it,
            Err(e) => {
                return Err(e);
            },
        };
        index.push((id, item));
        i += 1;
    }
    let paths_v = match json_get(v, "paths") {
        Some(x) => x,
        None => {
            return Err(ParseError::SchemaMismatch);
        },
    };
    let path_keys = match json_object_keys(paths_v) {
        Some(k) => k,
        None => {
            return Err(ParseError::SchemaMismatch);
        },
    };
    let mut paths: Vec<(u64, PathInfo)> = Vec::new();
    let mut j: usize = 0;
    while j < path_keys.len()
        invariant
            0 <= j <= path_keys@.len(),
        decreases path_keys@.len() - j,
    {
        let key = &path_keys[j];
        let id = match parse_u64_dec(key.as_str()) {
            Some(n) => n,
            None => {
                return Err(ParseError::SchemaMismatch);
            },
        };
        if id > u32::MAX as u64 {
            return Err(ParseError::SchemaMismatch);
        }
        let entry_v = match json_get(paths_v, key.as_str()) {
            Some(x) => x,
            None => {
                return Err(ParseError::SchemaMismatch);
            },
        };
        let info = match decode_path_info(entry_v) {
            Ok(p) => p,
            Err(e) => {
                return Err(e);
            },
        };
        paths.push((id, info));
        j += 1;
    }
    Ok(Document { schema_version: expect_version, crate_version, root_id, index, paths })
}

} // verus!
