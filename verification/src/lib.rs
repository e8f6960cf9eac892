//! Build-time provenance metadata: resolving a source-control identity for
//! each component of an artifact, synthesizing a CI run identifier when none
//! is supplied, aggregating the resolved identities into an immutable build
//! manifest, and rendering that manifest as text or as embeddable source code.

pub mod codegen;
pub mod manifest;
pub mod numfmt;
pub mod resolve;
pub mod text;

pub use codegen::{generate_build_info_code, generate_build_manifest_code};
pub use manifest::{BuildInfo, BuildManifest, ComponentIdentity};
pub use numfmt::u64_to_string;
pub use resolve::{get_git_sha, get_git_sha_with_fallback, local_run_id, resolve_run_id};
pub use text::trim_str;
