//! Parameters of the single-item lookup. The fetch runs outside the
//! library; the resolution and rendering it feeds is `find_item`.

use vstd::prelude::*;

verus! {

/// What a single-item request names.
#[derive(Clone, Debug)]
pub struct LookupItemParams {
    /// Name of the Rust crate.
    pub crate_name: String,
    /// Path to the specific item, in a conventional form such as a kind
    /// prefix followed by the name.
    pub item_path: String,
    /// Specific version or semver range.
    pub version: Option<String>,
    /// Target platform.
    pub target: Option<String>,
}

} // verus!
