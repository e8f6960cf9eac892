//! The build manifest: per-component provenance aggregated into one
//! immutable record, with its textual renderings.
//!
//! Two shapes are supported. `BuildInfo` carries a single component's
//! identity together with the artifact's declared version. `BuildManifest`
//! carries an ordered list of component identities side by side, so that
//! each independently versioned component of one artifact stays individually
//! auditable. Both are pure aggregates of already-resolved values:
//! construction never fails and performs no side effect.

use vstd::prelude::*;

use crate::numfmt::{dec_str, u64_to_string};

verus! {

/// One resolved provenance fact: which commit of the named component went
/// into the build.
#[derive(Debug, Clone)]
pub struct ComponentIdentity {
    /// Stable name of the component.
    pub component_label: String,
    /// Full commit hash, an externally supplied opaque identifier, or the
    /// sentinel identity.
    pub commit_id: String,
}

/// The abstract value of a `ComponentIdentity`.
pub struct ComponentIdentityView {
    pub component_label: Seq<char>,
    pub commit_id: Seq<char>,
}

impl View for ComponentIdentity {
    type V = ComponentIdentityView;

    open spec fn view(&self) -> ComponentIdentityView {
        ComponentIdentityView {
            component_label: self.component_label@,
            commit_id: self.commit_id@,
        }
    }
}

impl ComponentIdentity {
    /// Pairs a component's name with its resolved commit identity.
    pub fn new(component_label: String, commit_id: String) -> (r: ComponentIdentity)
        ensures
            r@.component_label == component_label@,
            r@.commit_id == commit_id@,
    {
        ComponentIdentity { component_label, commit_id }
    }
}

/// Single-component provenance: one commit identity, the CI run identifier,
/// the shared build timestamp and the artifact's declared version.
#[derive(Debug, Clone)]
pub struct BuildInfo {
    /// Commit identity of the one component.
    pub git_sha: String,
    /// CI run identifier, or the synthesized local pseudo-identifier.
    pub ci_run_id: String,
    /// Build time in seconds past the Unix epoch, shared by everything
    /// compiled into the artifact.
    pub build_timestamp: u64,
    /// Declared release version of the artifact.
    pub version: String,
}

/// The abstract value of a `BuildInfo`.
pub struct BuildInfoView {
    pub git_sha: Seq<char>,
    pub ci_run_id: Seq<char>,
    pub build_timestamp: u64,
    pub version: Seq<char>,
}

impl View for BuildInfo {
    type V = BuildInfoView;

    open spec fn view(&self) -> BuildInfoView {
        BuildInfoView {
            git_sha: self.git_sha@,
            ci_run_id: self.ci_run_id@,
            build_timestamp: self.build_timestamp,
            version: self.version@,
        }
    }
}

/// The compact machine-parseable rendering of a `BuildInfo`: field:value
/// pairs in the fixed order git_sha, ci_run_id, build_timestamp, version,
/// each value interpolated verbatim.
pub open spec fn info_compact(v: BuildInfoView) -> Seq<char> {
    "{git_sha:"@ + v.git_sha + ",ci_run_id:"@ + v.ci_run_id + ",build_timestamp:"@ + dec_str(
        v.build_timestamp as nat,
    ) + ",version:"@ + v.version + "}"@
}

impl BuildInfo {
    /// Aggregates one component's already-resolved values. Pure: the record
    /// holds exactly the given values.
    pub fn new(git_sha: String, ci_run_id: String, build_timestamp: u64, version: String) -> (r:
        BuildInfo)
        ensures
            r@.git_sha == git_sha@,
            r@.ci_run_id == ci_run_id@,
            r@.build_timestamp == build_timestamp,
            r@.version == version@,
    {
        BuildInfo { git_sha, ci_run_id, build_timestamp, version }
    }

    /// Renders the record in its compact machine-parseable form. The output
    /// is a function of the record's value alone.
    pub fn to_json(&self) -> (r: String)
        ensures
            r@ == info_compact(self@),
    {
        let mut r = "{git_sha:".to_owned();
        r.append(self.git_sha.as_str());
        r.append(",ci_run_id:");
        r.append(self.ci_run_id.as_str());
        r.append(",build_timestamp:");
        let ts = u64_to_string(self.build_timestamp);
        r.append(ts.as_str());
        r.append(",version:");
        r.append(self.version.as_str());
        r.append("}");
        r
    }
}

/// Multi-component provenance: each component's identity side by side, the
/// shared CI run identifier and the shared build timestamp.
#[derive(Debug, Clone)]
pub struct BuildManifest {
    /// Component identities, in declaration order. Order is significant.
    pub components: Vec<ComponentIdentity>,
    /// CI run identifier, or the synthesized local pseudo-identifier.
    pub ci_run_id: String,
    /// Build time in seconds past the Unix epoch, shared by every component
    /// in the manifest.
    pub build_timestamp: u64,
}

/// The abstract value of a `BuildManifest`.
pub struct BuildManifestView {
    pub components: Seq<ComponentIdentityView>,
    pub ci_run_id: Seq<char>,
    pub build_timestamp: u64,
}

impl View for BuildManifest {
    type V = BuildManifestView;

    open spec fn view(&self) -> BuildManifestView {
        BuildManifestView {
            components: self.components@.map_values(|c: ComponentIdentity| c@),
            ci_run_id: self.ci_run_id@,
            build_timestamp: self.build_timestamp,
        }
    }
}

/// One component's piece of the compact rendering: `<label>_git_sha:<id>,`.
pub open spec fn component_compact(c: ComponentIdentityView) -> Seq<char> {
    c.component_label + "_git_sha:"@ + c.commit_id + ","@
}

/// The components' pieces of the compact rendering, concatenated in order.
pub open spec fn components_compact(cs: Seq<ComponentIdentityView>) -> Seq<char>
    decreases cs.len(),
{
    if cs.len() == 0 {
        Seq::<char>::empty()
    } else {
        component_compact(cs[0]) + components_compact(cs.drop_first())
    }
}

/// The compact machine-parseable rendering of a `BuildManifest`: one
/// `<label>_git_sha:<id>` pair per component in order, then ci_run_id, then
/// build_timestamp, each value interpolated verbatim.
pub open spec fn manifest_compact(v: BuildManifestView) -> Seq<char> {
    "{"@ + components_compact(v.components) + "ci_run_id:"@ + v.ci_run_id + ",build_timestamp:"@
        + dec_str(v.build_timestamp as nat) + "}"@
}

/// One component's piece of the readable rendering: `<label>_git_sha: <id>, `.
pub open spec fn component_readable(c: ComponentIdentityView) -> Seq<char> {
    c.component_label + "_git_sha: "@ + c.commit_id + ", "@
}

/// The components' pieces of the readable rendering, concatenated in order.
pub open spec fn components_readable(cs: Seq<ComponentIdentityView>) -> Seq<char>
    decreases cs.len(),
{
    if cs.len() == 0 {
        Seq::<char>::empty()
    } else {
        component_readable(cs[0]) + components_readable(cs.drop_first())
    }
}

/// The human-readable rendering of a `BuildManifest`, one key/value pair per
/// component followed by the shared fields.
pub open spec fn manifest_readable(v: BuildManifestView) -> Seq<char> {
    "BuildManifest { "@ + components_readable(v.components) + "ci_run_id: "@ + v.ci_run_id
        + ", build_timestamp: "@ + dec_str(v.build_timestamp as nat) + " }"@
}

/// Splitting a component list anywhere splits its compact rendering at the
/// matching point.
proof fn lemma_components_compact_concat(a: Seq<ComponentIdentityView>, b: Seq<
    ComponentIdentityView,
>)
    ensures
        components_compact(a + b) == components_compact(a) + components_compact(b),
    decreases a.len(),
{
    if a.len() == 0 {
        assert(a + b =~= b);
        assert(components_compact(a) + components_compact(b) =~= components_compact(b));
    } else {
        lemma_components_compact_concat(a.drop_first(), b);
        assert((a + b).drop_first() =~= a.drop_first() + b);
        assert(components_compact(a + b) =~= components_compact(a) + components_compact(b));
    }
}

/// Splitting a component list anywhere splits its readable rendering at the
/// matching point.
proof fn lemma_components_readable_concat(a: Seq<ComponentIdentityView>, b: Seq<
    ComponentIdentityView,
>)
    ensures
        components_readable(a + b) == components_readable(a) + components_readable(b),
    decreases a.len(),
{
    if a.len() == 0 {
        assert(a + b =~= b);
        assert(components_readable(a) + components_readable(b) =~= components_readable(b));
    } else {
        lemma_components_readable_concat(a.drop_first(), b);
        assert((a + b).drop_first() =~= a.drop_first() + b);
        assert(components_readable(a + b) =~= components_readable(a) + components_readable(b));
    }
}

/// The compact rendering of a single-component list is that component's
/// piece alone.
proof fn lemma_components_compact_single(c: ComponentIdentityView)
    ensures
        components_compact(seq![c]) == component_compact(c),
{
    reveal_with_fuel(components_compact, 2);
    assert(seq![c].drop_first() =~= Seq::<ComponentIdentityView>::empty());
    assert(components_compact(seq![c]) =~= component_compact(c));
}

/// The readable rendering of a single-component list is that component's
/// piece alone.
proof fn lemma_components_readable_single(c: ComponentIdentityView)
    ensures
        components_readable(seq![c]) == component_readable(c),
{
    reveal_with_fuel(components_readable, 2);
    assert(seq![c].drop_first() =~= Seq::<ComponentIdentityView>::empty());
    assert(components_readable(seq![c]) =~= component_readable(c));
}

impl BuildManifest {
    /// Aggregates the already-resolved component identities with the shared
    /// run identifier and timestamp. Pure and order-preserving: the
    /// manifest's component list is exactly the given list, in the given
    /// order, and one component's values never affect another's. An empty
    /// component list yields a valid empty manifest.
    pub fn new(components: Vec<ComponentIdentity>, ci_run_id: String, build_timestamp: u64) -> (r:
        BuildManifest)
        ensures
            r@.components == components@.map_values(|c: ComponentIdentity| c@),
            r@.ci_run_id == ci_run_id@,
            r@.build_timestamp == build_timestamp,
    {
        BuildManifest { components, ci_run_id, build_timestamp }
    }

    /// Renders the manifest in its compact machine-parseable form. The
    /// output is a function of the manifest's value alone.
    pub fn to_json(&self) -> (r: String)
        ensures
            r@ == manifest_compact(self@),
    {
        let ghost cs = self@.components;
        let mut r = "{".to_owned();
        let mut k: usize = 0;
        proof {
            assert(cs.take(0) =~= Seq::<ComponentIdentityView>::empty());
        }
        while k < self.components.len()
            invariant
                k <= self.components.len(),
                cs == self.components@.map_values(|c: ComponentIdentity| c@),
                cs.len() == self.components.len(),
                r@ == "{"@ + components_compact(cs.take(k as int)),
            decreases self.components.len() - k,
        {
            let c = &self.components[k];
            r.append(c.component_label.as_str());
            r.append("_git_sha:");
            r.append(c.commit_id.as_str());
            r.append(",");
            proof {
                assert(cs.take(k as int + 1) =~= cs.take(k as int) + seq![cs[k as int]]);
                lemma_components_compact_concat(cs.take(k as int), seq![cs[k as int]]);
                lemma_components_compact_single(cs[k as int]);
                assert(r@ =~= "{"@ + components_compact(cs.take(k as int + 1)));
            }
            k = k + 1;
        }
        proof {
            assert(cs.take(cs.len() as int) =~= cs);
        }
        r.append("ci_run_id:");
        r.append(self.ci_run_id.as_str());
        r.append(",build_timestamp:");
        let ts = u64_to_string(self.build_timestamp);
        r.append(ts.as_str());
        r.append("}");
        proof {
            assert(r@ =~= manifest_compact(self@));
        }
        r
    }

    /// Renders the manifest in its human-readable form. The output is a
    /// function of the manifest's value alone.
    pub fn render(&self) -> (r: String)
        ensures
            r@ == manifest_readable(self@),
    {
        let ghost cs = self@.components;
        let mut r = "BuildManifest { ".to_owned();
        let mut k: usize = 0;
        proof {
            assert(cs.take(0) =~= Seq::<ComponentIdentityView>::empty());
        }
        while k < self.components.len()
            invariant
                k <= self.components.len(),
                cs == self.components@.map_values(|c: ComponentIdentity| c@),
                cs.len() == self.components.len(),
                r@ == "BuildManifest { "@ + components_readable(cs.take(k as int)),
            decreases self.components.len() - k,
        {
            let c = &self.components[k];
            r.append(c.component_label.as_str());
            r.append("_git_sha: ");
            r.append(c.commit_id.as_str());
            r.append(", ");
            proof {
                assert(cs.take(k as int + 1) =~= cs.take(k as int) + seq![cs[k as int]]);
                lemma_components_readable_concat(cs.take(k as int), seq![cs[k as int]]);
                lemma_components_readable_single(cs[k as int]);
                assert(r@ =~= "BuildManifest { "@ + components_readable(cs.take(k as int + 1)));
            }
            k = k + 1;
        }
        proof {
            assert(cs.take(cs.len() as int) =~= cs);
        }
        r.append("ci_run_id: ");
        r.append(self.ci_run_id.as_str());
        r.append(", build_timestamp: ");
        let ts = u64_to_string(self.build_timestamp);
        r.append(ts.as_str());
        r.append(" }");
        proof {
            assert(r@ =~= manifest_readable(self@));
        }
        r
    }
}

/// Law: aggregation and rendering are pure — two records with equal abstract
/// values render to byte-identical text, in both supported shapes and both
/// textual forms, so repeating the step with identical inputs repeats its
/// output exactly.
pub proof fn lemma_rendering_deterministic(
    a: BuildInfoView,
    b: BuildInfoView,
    m: BuildManifestView,
    n: BuildManifestView,
)
    requires
        a == b,
        m == n,
    ensures
        info_compact(a) == info_compact(b),
        manifest_compact(m) == manifest_compact(n),
        manifest_readable(m) == manifest_readable(n),
{
}

} // verus!
