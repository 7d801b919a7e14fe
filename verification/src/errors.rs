//! The error taxonomy of the engine. Every error is terminal to the current
//! request and carries the identifying detail its message surfaces.

use vstd::prelude::*;
use vstd::string::*;

use crate::text::{dec_rep, join_with, join_strings, u64_to_dec};

verus! {

/// Everything that can go wrong between raw document text and rendered
/// output.
#[derive(Clone, Debug)]
pub enum ParseError {
    /// The document is not valid JSON, or its format version field is
    /// missing or not an integer.
    VersionField,
    /// The version was read but is not in the registry's supported set.
    UnsupportedVersion { version: u64, supported: Vec<u64> },
    /// The version matched a registry entry but the document's structure
    /// does not conform to that version's shape.
    SchemaMismatch,
    /// The root identifier is absent from the index.
    RootNotFound { root_id: u64 },
    /// Neither resolution phase matched the queried path.
    ItemNotFound { item_path: String },
}

/// The decimal renderings of a list of version numbers.
pub open spec fn dec_list_of(vs: Seq<u64>) -> Seq<Seq<char>> {
    vs.map_values(|v: u64| dec_rep(v as int))
}

/// The user-facing message of each error.
pub open spec fn message_spec(e: ParseError) -> Seq<char> {
    match e {
        ParseError::VersionField => "Invalid rustdoc JSON: missing or non-integer format_version"@,
        ParseError::UnsupportedVersion { version, supported } => "Unsupported rustdoc format version: "@
            + dec_rep(version as int) + ". Supported versions: "@ + join_with(
            dec_list_of(supported@),
            ", "@,
        ),
        ParseError::SchemaMismatch => "Document structure does not match its declared rustdoc format version"@,
        ParseError::RootNotFound { root_id } => "Root item '"@ + dec_rep(root_id as int)
            + "' not found in index"@,
        ParseError::ItemNotFound { item_path } => "Item '"@ + item_path@ + "' not found in crate"@,
    }
}

fn dec_list(vs: &Vec<u64>) -> (r: Vec<String>)
    ensures
        r.deep_view() == dec_list_of(vs@),
{
    let mut r: Vec<String> = Vec::new();
    let mut i: usize = 0;
    while i < vs.len()
        invariant
            0 <= i <= vs@.len(),
            r@.len() == i,
            forall|j: int| 0 <= j < i ==> (#[trigger] r@[j])@ == dec_rep(vs@[j] as int),
        decreases vs@.len() - i,
    {
        r.push(u64_to_dec(vs[i]));
        i += 1;
    }
    proof {
        assert forall|j: int| 0 <= j < vs@.len() implies r.deep_view()[j] == dec_list_of(vs@)[j] by {
            assert(r.deep_view()[j] == r@[j]@);
            assert(dec_list_of(vs@)[j] == dec_rep(vs@[j] as int));
        }
        assert(r.deep_view() =~= dec_list_of(vs@));
    }
    proof {
        assert(vs@.take(vs@.len() as int) =~= vs@);
    }
    r
}

/// The message of an item-not-found error contains the queried path
/// verbatim.
pub proof fn lemma_item_not_found_message(item_path: String)
    ensures
        ({
            let m = message_spec(ParseError::ItemNotFound { item_path });
            exists|k: int|
                0 <= k && k + item_path@.len() <= m.len() && #[trigger] m.subrange(
                    k,
                    k + item_path@.len() as int,
                ) == item_path@
        }),
{
    reveal_strlit("Item '");
    let m = message_spec(ParseError::ItemNotFound { item_path });
    assert(m.subrange(6, 6 + item_path@.len() as int) =~= item_path@);
}

/// The message of an unsupported-version error contains the rejected
/// version's decimal rendering verbatim.
pub proof fn lemma_unsupported_version_message(version: u64, supported: Vec<u64>)
    ensures
        ({
            let m = message_spec(ParseError::UnsupportedVersion { version, supported });
            let d = dec_rep(version as int);
            exists|k: int|
                0 <= k && k + d.len() <= m.len() && #[trigger] m.subrange(k, k + d.len() as int)
                    == d
        }),
{
    reveal_strlit("Unsupported rustdoc format version: ");
    let m = message_spec(ParseError::UnsupportedVersion { version, supported });
    let d = dec_rep(version as int);
    assert(m.subrange(36, 36 + d.len() as int) =~= d);
}

impl ParseError {
    /// Render this error as the message surfaced to the caller.
    pub fn message(&self) -> (r: String)
        ensures
            r@ == message_spec(*self),
    {
        match self {
            ParseError::VersionField => String::from_str(
                "Invalid rustdoc JSON: missing or non-integer format_version",
            ),
            ParseError::UnsupportedVersion { version, supported } => {
                let mut r = String::from_str("Unsupported rustdoc format version: ");
                let v = u64_to_dec(*version);
                r.append(v.as_str());
                r.append(". Supported versions: ");
                let parts = dec_list(supported);
                let joined = join_strings(&parts, ", ");
                r.append(joined.as_str());
                r
            },
            ParseError::SchemaMismatch => String::from_str(
                "Document structure does not match its declared rustdoc format version",
            ),
            ParseError::RootNotFound { root_id } => {
                let mut r = String::from_str("Root item '");
                let v = u64_to_dec(*root_id);
                r.append(v.as_str());
                r.append("' not found in index");
                r
            },
            ParseError::ItemNotFound { item_path } => {
                let mut r = String::from_str("Item '");
                r.append(item_path.as_str());
                r.append("' not found in crate");
                r
            },
        }
    }
}

} // verus!
