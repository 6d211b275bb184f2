//! Turns a package manifest and per-package derivation descriptions into
//! cross-linked Markdown notes, one per package.
//!
//! - `ident`: the stable identifier of a store path, shared by file names and links.
//! - `json`: JSON as plain values, read with serde_json.
//! - `record`: a package as the manifest describes it, then as introspection completes it.
//! - `introspect`: reading the build system's description of a derivation.
//! - `render`: the Markdown note of a package and where it is stored.
//! - `pipeline`: the per-package decisions of a run and the tally of outcomes.
//! - `commands`: the texts handed to the build system's tools.
//! - `laws`: properties that relate several of the above.

pub mod ident;
pub mod json;
pub mod record;
pub mod introspect;
pub mod render;
pub mod pipeline;
pub mod laws;
pub mod commands;
