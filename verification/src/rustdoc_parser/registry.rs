//! The schema registry: a static table over the explicit, closed set of
//! supported schema versions. Lookup is exact-match only; adjacent versions
//! are deliberately not assumed compatible.

use vstd::prelude::*;

use crate::errors::ParseError;
use crate::model::Document;
use crate::rustdoc_parser::{v46, v48, v49, v50, v51, v52, v53};

verus! {

/// One adapter per supported schema version.
#[derive(Clone, Copy, Debug, PartialEq, Eq, Structural)]
pub enum Adapter {
    V46,
    V48,
    V49,
    V50,
    V51,
    V52,
    V53,
}

/// The closed set of supported schema versions, in ascending order.
pub open spec fn supported_versions() -> Seq<u64> {
    seq![46u64, 48u64, 49u64, 50u64, 51u64, 52u64, 53u64]
}

/// The registry table as a function: the adapter for a supported version,
/// or nothing for any other version.
pub open spec fn adapter_for(version: u64) -> Option<Adapter> {
    if version == 46 {
        Some(Adapter::V46)
    } else if version == 48 {
        Some(Adapter::V48)
    } else if version == 49 {
        Some(Adapter::V49)
    } else if version == 50 {
        Some(Adapter::V50)
    } else if version == 51 {
        Some(Adapter::V51)
    } else if version == 52 {
        Some(Adapter::V52)
    } else if version == 53 {
        Some(Adapter::V53)
    } else {
        None
    }
}

impl Adapter {
    /// The schema version this adapter accepts.
    pub open spec fn version_spec(self) -> u64 {
        match self {
            Adapter::V46 => 46,
            Adapter::V48 => 48,
            Adapter::V49 => 49,
            Adapter::V50 => 50,
            Adapter::V51 => 51,
            Adapter::V52 => 52,
            Adapter::V53 => 53,
        }
    }

    /// Parse a raw document against this adapter's schema version and
    /// project it into the intermediate model. A document that does not
    /// declare this adapter's own version is rejected.
    pub fn parse(&self, raw: &str) -> (r: Result<Document, ParseError>)
        ensures
            r matches Ok(doc) ==> doc.wf() && doc.schema_version == self.version_spec()
                && crate::json::u64_field_of(raw@, "format_version"@) == Some(
                self.version_spec(),
            ),
            r matches Err(e) ==> e is SchemaMismatch,
            crate::json::u64_field_of(raw@, "format_version"@) != Some(self.version_spec())
                ==> r is Err,
    {
        match self {
            Adapter::V46 => v46::parse(raw),
            Adapter::V48 => v48::parse(raw),
            Adapter::V49 => v49::parse(raw),
            Adapter::V50 => v50::parse(raw),
            Adapter::V51 => v51::parse(raw),
            Adapter::V52 => v52::parse(raw),
            Adapter::V53 => v53::parse(raw),
        }
    }

    /// The schema version this adapter accepts.
    pub fn version(&self) -> (v: u64)
        ensures
            v == self.version_spec(),
    {
        match self {
            Adapter::V46 => 46,
            Adapter::V48 => 48,
            Adapter::V49 => 49,
            Adapter::V50 => 50,
            Adapter::V51 => 51,
            Adapter::V52 => 52,
            Adapter::V53 => 53,
        }
    }
}

/// The supported set as a list, for diagnostics.
pub fn supported_list() -> (r: Vec<u64>)
    ensures
        r@ == supported_versions(),
{
    let mut r: Vec<u64> = Vec::new();
    r.push(46);
    r.push(48);
    r.push(49);
    r.push(50);
    r.push(51);
    r.push(52);
    r.push(53);
    proof {
        assert(r@ =~= supported_versions());
    }
    r
}

/// Exact-match lookup in the registry. A version outside the closed set is
/// rejected with an error that names the version and carries the full
/// supported set.
pub fn resolve(version: u64) -> (r: Result<Adapter, ParseError>)
    ensures
        match r {
            Ok(a) => adapter_for(version) == Some(a),
            Err(e) => {
                &&& adapter_for(version) is None
                &&& e matches ParseError::UnsupportedVersion { version: v, supported }
                    && v == version && supported@ == supported_versions()
            },
        },
{
    if version == 46 {
        Ok(Adapter::V46)
    } else if version == 48 {
        Ok(Adapter::V48)
    } else if version == 49 {
        Ok(Adapter::V49)
    } else if version == 50 {
        Ok(Adapter::V50)
    } else if version == 51 {
        Ok(Adapter::V51)
    } else if version == 52 {
        Ok(Adapter::V52)
    } else if version == 53 {
        Ok(Adapter::V53)
    } else {
        Err(ParseError::UnsupportedVersion { version, supported: supported_list() })
    }
}

/// Every version of the supported set resolves to an adapter, and to a
/// distinct one: the registry is injective on its domain.
pub proof fn lemma_registry_distinct(v1: u64, v2: u64)
    requires
        supported_versions().contains(v1),
        supported_versions().contains(v2),
    ensures
        adapter_for(v1) is Some,
        adapter_for(v1) == adapter_for(v2) ==> v1 == v2,
{
    let s = supported_versions();
    let i = choose|i: int| 0 <= i < s.len() && s[i] == v1;
    let j = choose|j: int| 0 <= j < s.len() && s[j] == v2;
    assert(s[i] == v1 && s[j] == v2);
    assert(adapter_for(v1) is Some);
}

} // verus!
