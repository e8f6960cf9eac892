//! Rendering a resolved build manifest as embeddable source text.
//!
//! The generated text defines an immutable value type whose zero-argument
//! constructor returns the resolved values baked in as literals, so the
//! running program obtains its provenance without re-running resolution.
//! Values are interpolated verbatim, in the argument order of each
//! generator.

use vstd::prelude::*;

use crate::numfmt::{dec_str, u64_to_string};

verus! {

/// The source text generated for a single component's build information:
/// a fixed template with the label, commit identity, run identifier,
/// timestamp digits and version interpolated verbatim.
pub open spec fn build_info_code(
    label: Seq<char>,
    sha: Seq<char>,
    run_id: Seq<char>,
    ts: Seq<char>,
    version: Seq<char>,
) -> Seq<char> {
    "
/// Build provenance for "@ + label
        + ".
#[derive(Debug, Clone)]
pub struct BuildInfo {
    /// Commit identity.
    pub git_sha: &'static str,
    /// CI run identifier.
    pub ci_run_id: &'static str,
    /// Build time in seconds past the Unix epoch.
    pub build_timestamp: &'static str,
    /// Declared package version.
    pub version: &'static str,
}

impl BuildInfo {
    /// The values resolved when this artifact was built.
    pub fn get() -> Self {
        BuildInfo {
            git_sha: \""@ + sha
        + "\",
            ci_run_id: \""@ + run_id
        + "\",
            build_timestamp: \""@ + ts
        + "\",
            version: \""@ + version
        + "\",
        }
    }

    /// The compact field:value rendering.
    pub fn to_json(&self) -> String {
        let mut out = String::new();
        out.push_str(\"{git_sha:\");
        out.push_str(self.git_sha);
        out.push_str(\",ci_run_id:\");
        out.push_str(self.ci_run_id);
        out.push_str(\",build_timestamp:\");
        out.push_str(self.build_timestamp);
        out.push_str(\",version:\");
        out.push_str(self.version);
        out.push_str(\"}\");
        out
    }
}
"@
}

/// The source text generated for the multi-component manifest: a fixed
/// template with the three commit identities, the run identifier and the
/// timestamp digits interpolated verbatim.
pub open spec fn build_manifest_code(
    core_sha: Seq<char>,
    logic_sha: Seq<char>,
    runtime_sha: Seq<char>,
    run_id: Seq<char>,
    ts: Seq<char>,
) -> Seq<char> {
    "
/// Provenance of the final artifact, one commit identity per component.
#[derive(Debug, Clone)]
pub struct BuildManifest {
    /// Commit identity of the core component.
    pub core_git_sha: &'static str,
    /// Commit identity of the logic component.
    pub logic_git_sha: &'static str,
    /// Commit identity of the runtime component.
    pub runtime_git_sha: &'static str,
    /// CI run identifier.
    pub ci_run_id: &'static str,
    /// Build time in seconds past the Unix epoch.
    pub build_timestamp: &'static str,
}

impl BuildManifest {
    /// The values resolved when this artifact was built.
    pub fn get() -> Self {
        BuildManifest {
            core_git_sha: \""@ + core_sha
        + "\",
            logic_git_sha: \""@ + logic_sha
        + "\",
            runtime_git_sha: \""@ + runtime_sha
        + "\",
            ci_run_id: \""@ + run_id
        + "\",
            build_timestamp: \""@ + ts
        + "\",
        }
    }

    /// The readable key/value rendering.
    pub fn render(&self) -> String {
        let mut out = String::new();
        out.push_str(\"BuildManifest { core_git_sha: \");
        out.push_str(self.core_git_sha);
        out.push_str(\", logic_git_sha: \");
        out.push_str(self.logic_git_sha);
        out.push_str(\", runtime_git_sha: \");
        out.push_str(self.runtime_git_sha);
        out.push_str(\", ci_run_id: \");
        out.push_str(self.ci_run_id);
        out.push_str(\", build_timestamp: \");
        out.push_str(self.build_timestamp);
        out.push_str(\" }\");
        out
    }
}
"@
}

/// Generates the single-component build-information source text, with the
/// given values baked in verbatim and the timestamp rendered in decimal.
pub fn generate_build_info_code(
    crate_label: &str,
    sha: &str,
    run_id: &str,
    ts_secs: u64,
    version: &str,
) -> (r: String)
    ensures
        r@ == build_info_code(crate_label@, sha@, run_id@, dec_str(ts_secs as nat), version@),
{
    let mut r = "
/// Build provenance for ".to_owned();
    r.append(crate_label);
    r.append(
        ".
#[derive(Debug, Clone)]
pub struct BuildInfo {
    /// Commit identity.
    pub git_sha: &'static str,
    /// CI run identifier.
    pub ci_run_id: &'static str,
    /// Build time in seconds past the Unix epoch.
    pub build_timestamp: &'static str,
    /// Declared package version.
    pub version: &'static str,
}

impl BuildInfo {
    /// The values resolved when this artifact was built.
    pub fn get() -> Self {
        BuildInfo {
            git_sha: \"",
    );
    r.append(sha);
    r.append(
        "\",
            ci_run_id: \"",
    );
    r.append(run_id);
    r.append(
        "\",
            build_timestamp: \"",
    );
    let ts = u64_to_string(ts_secs);
    r.append(ts.as_str());
    r.append(
        "\",
            version: \"",
    );
    r.append(version);
    r.append(
        "\",
        }
    }

    /// The compact field:value rendering.
    pub fn to_json(&self) -> String {
        let mut out = String::new();
        out.push_str(\"{git_sha:\");
        out.push_str(self.git_sha);
        out.push_str(\",ci_run_id:\");
        out.push_str(self.ci_run_id);
        out.push_str(\",build_timestamp:\");
        out.push_str(self.build_timestamp);
        out.push_str(\",version:\");
        out.push_str(self.version);
        out.push_str(\"}\");
        out
    }
}
",
    );
    r
}

/// Generates the multi-component manifest source text, with the given values
/// baked in verbatim and the timestamp rendered in decimal.
pub fn generate_build_manifest_code(
    core_sha: &str,
    logic_sha: &str,
    runtime_sha: &str,
    run_id: &str,
    ts_secs: u64,
) -> (r: String)
    ensures
        r@ == build_manifest_code(
            core_sha@,
            logic_sha@,
            runtime_sha@,
            run_id@,
            dec_str(ts_secs as nat),
        ),
{
    let mut r = "
/// Provenance of the final artifact, one commit identity per component.
#[derive(Debug, Clone)]
pub struct BuildManifest {
    /// Commit identity of the core component.
    pub core_git_sha: &'static str,
    /// Commit identity of the logic component.
    pub logic_git_sha: &'static str,
    /// Commit identity of the runtime component.
    pub runtime_git_sha: &'static str,
    /// CI run identifier.
    pub ci_run_id: &'static str,
    /// Build time in seconds past the Unix epoch.
    pub build_timestamp: &'static str,
}

impl BuildManifest {
    /// The values resolved when this artifact was built.
    pub fn get() -> Self {
        BuildManifest {
            core_git_sha: \"".to_owned();
    r.append(core_sha);
    r.append(
        "\",
            logic_git_sha: \"",
    );
    r.append(logic_sha);
    r.append(
        "\",
            runtime_git_sha: \"",
    );
    r.append(runtime_sha);
    r.append(
        "\",
            ci_run_id: \"",
    );
    r.append(run_id);
    r.append(
        "\",
            build_timestamp: \"",
    );
    let ts = u64_to_string(ts_secs);
    r.append(ts.as_str());
    r.append(
        "\",
        }
    }

    /// The readable key/value rendering.
    pub fn render(&self) -> String {
        let mut out = String::new();
        out.push_str(\"BuildManifest { core_git_sha: \");
        out.push_str(self.core_git_sha);
        out.push_str(\", logic_git_sha: \");
        out.push_str(self.logic_git_sha);
        out.push_str(\", runtime_git_sha: \");
        out.push_str(self.runtime_git_sha);
        out.push_str(\", ci_run_id: \");
        out.push_str(self.ci_run_id);
        out.push_str(\", build_timestamp: \");
        out.push_str(self.build_timestamp);
        out.push_str(\" }\");
        out
    }
}
",
    );
    r
}

} // verus!
