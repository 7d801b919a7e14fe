//! A multi-version rustdoc JSON parsing and rendering engine.
//!
//! Given the raw text of a docs.rs machine-readable documentation export,
//! the library sniffs the embedded schema version, dispatches through a
//! closed registry of per-version adapters, projects the document into a
//! version-agnostic intermediate model, and renders either a crate overview
//! or a single named item as plain text.

pub mod docs_fetcher;
pub mod errors;
pub mod model;
pub mod rustdoc_parser;
pub mod json;
pub mod text;
pub mod tools;
