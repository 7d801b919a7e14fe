//! The parameter types and pure computation behind the library's tools:
//! crate lookup, item lookup, and crate search.

pub mod lookup_crate;
pub mod lookup_item;
pub mod search_crates;
