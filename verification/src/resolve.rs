//! Identity resolution: choosing one commit identity and one run identifier
//! from a strict priority order of sources, with a sentinel fallback.
//!
//! Reading environment variables, running the version-control probe and
//! reading the clock are side effects that stay with the caller; resolution
//! here is a pure function of the values those sources produced. A source
//! that is unset or failed is handed in as `None`.

use vstd::prelude::*;

use crate::numfmt::{dec_str, u64_to_string};
use crate::text::{trim_str, trimmed};

verus! {

/// The fixed fallback identity used when no source can supply one.
pub open spec fn sentinel() -> Seq<char> {
    "unknown"@
}

/// The commit identity that a version-control probe outcome yields: the
/// probe's output trimmed of surrounding whitespace on success, the sentinel
/// on any failure. A commit identity is never empty: a successful probe
/// whose output holds nothing but whitespace also yields the sentinel.
pub open spec fn commit_of_probe(probe: Option<Seq<char>>) -> Seq<char> {
    match probe {
        Option::Some(out) => if trimmed(out).len() == 0 {
            sentinel()
        } else {
            trimmed(out)
        },
        Option::None => sentinel(),
    }
}

/// The commit identity for a component, given the value of its explicit
/// override variable, the value of the generic CI commit variable, and the
/// outcome of the version-control probe, in that priority order.
pub open spec fn resolved_commit(
    primary: Option<Seq<char>>,
    ci_sha: Option<Seq<char>>,
    probe: Option<Seq<char>>,
) -> Seq<char> {
    match primary {
        Option::Some(v) => v,
        Option::None => match ci_sha {
            Option::Some(v) => v,
            Option::None => commit_of_probe(probe),
        },
    }
}

/// The synthesized pseudo run identifier for a build at `secs` seconds past
/// the Unix epoch.
pub open spec fn local_run_id_of(secs: u64) -> Seq<char> {
    "local-"@ + dec_str(secs as nat)
}

/// Turns the outcome of the version-control "current commit" probe into a
/// commit identity. `probe` is `Some` of the probe's standard output when the
/// probe ran, exited zero and its output decoded as text; `None` otherwise.
/// The result is never empty: output that trims to nothing counts as a
/// failed probe and yields the sentinel.
pub fn get_git_sha(probe: Option<&str>) -> (r: String)
    ensures
        probe is Some ==> r@ == commit_of_probe(Option::Some(probe->0@)),
        probe is None ==> r@ == sentinel(),
{
    match probe {
        Option::Some(out) => {
            let t = trim_str(out);
            if t.as_str().is_empty() {
                "unknown".to_owned()
            } else {
                t
            }
        },
        Option::None => "unknown".to_owned(),
    }
}

/// Resolves a component's commit identity from its sources, first success
/// winning: the explicit override variable's value verbatim, else the generic
/// CI commit variable's value verbatim, else the trimmed probe output (the
/// sentinel when it trims to nothing), else the sentinel. Resolution never
/// fails: every case yields an identity.
pub fn get_git_sha_with_fallback(
    primary: Option<&str>,
    ci_sha: Option<&str>,
    probe: Option<&str>,
) -> (r: String)
    ensures
        primary is Some ==> r@ == primary->0@,
        primary is None && ci_sha is Some ==> r@ == ci_sha->0@,
        primary is None && ci_sha is None && probe is Some ==> r@ == commit_of_probe(
            Option::Some(probe->0@),
        ),
        primary is None && ci_sha is None && probe is None ==> r@ == sentinel(),
{
    match primary {
        Option::Some(v) => v.to_owned(),
        Option::None => match ci_sha {
            Option::Some(v) => v.to_owned(),
            Option::None => get_git_sha(probe),
        },
    }
}

/// Synthesizes the pseudo run identifier `local-<now_secs>` used when no CI
/// run identifier is available.
pub fn local_run_id(now_secs: u64) -> (r: String)
    ensures
        r@ == local_run_id_of(now_secs),
{
    let mut r = "local-".to_owned();
    let digits = u64_to_string(now_secs);
    r.append(digits.as_str());
    r
}

/// Resolves the build's run identifier: the CI run-id variable's value
/// verbatim when it is set, else the synthesized `local-<now_secs>` form.
pub fn resolve_run_id(ci_run_id: Option<&str>, now_secs: u64) -> (r: String)
    ensures
        ci_run_id is Some ==> r@ == ci_run_id->0@,
        ci_run_id is None ==> r@ == local_run_id_of(now_secs),
{
    match ci_run_id {
        Option::Some(v) => v.to_owned(),
        Option::None => local_run_id(now_secs),
    }
}

/// Law: a synthesized run identifier is the fixed prefix `local-` followed by
/// one or more decimal digit characters, for every clock value.
pub proof fn lemma_local_run_id_pattern(secs: u64)
    ensures
        local_run_id_of(secs).len() > 6,
        local_run_id_of(secs).subrange(0, 6) == "local-"@,
        forall|k: int|
            6 <= k < local_run_id_of(secs).len() ==> crate::numfmt::is_ascii_digit(
                #[trigger] local_run_id_of(secs)[k],
            ),
{
    reveal_strlit("local-");
    crate::numfmt::lemma_dec_str_digits(secs as nat);
    assert(local_run_id_of(secs).subrange(0, 6) =~= "local-"@);
}

} // verus!
