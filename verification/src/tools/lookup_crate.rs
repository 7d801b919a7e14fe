//! Parameters of the crate-overview lookup. The fetch runs outside the
//! library; the parsing and rendering it feeds is `parse_crate_info`.

use vstd::prelude::*;

verus! {

/// What a crate-overview request names.
#[derive(Clone, Debug)]
pub struct LookupCrateParams {
    /// Name of the Rust crate to look up documentation for.
    pub crate_name: String,
    /// Specific version or semver range.
    pub version: Option<String>,
    /// Target platform.
    pub target: Option<String>,
}

} // verus!
