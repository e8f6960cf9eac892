use build_support::{
    get_git_sha_with_fallback, resolve_run_id, BuildInfo, BuildManifest, ComponentIdentity,
};

fn three_components() -> Vec<ComponentIdentity> {
    vec![
        ComponentIdentity::new("core".to_string(), "a1".to_string()),
        ComponentIdentity::new("logic".to_string(), "b2".to_string()),
        ComponentIdentity::new("runtime".to_string(), "c3".to_string()),
    ]
}

#[test]
fn aggregation_preserves_component_order() {
    let m = BuildManifest::new(three_components(), "77".to_string(), 1700000000);
    assert_eq!(m.components.len(), 3);
    assert_eq!(m.components[0].component_label, "core");
    assert_eq!(m.components[0].commit_id, "a1");
    assert_eq!(m.components[1].component_label, "logic");
    assert_eq!(m.components[1].commit_id, "b2");
    assert_eq!(m.components[2].component_label, "runtime");
    assert_eq!(m.components[2].commit_id, "c3");
    assert_eq!(m.ci_run_id, "77");
    assert_eq!(m.build_timestamp, 1700000000);
}

#[test]
fn manifest_compact_form_is_exact() {
    let m = BuildManifest::new(three_components(), "77".to_string(), 1700000000);
    assert_eq!(
        m.to_json(),
        "{core_git_sha:a1,logic_git_sha:b2,runtime_git_sha:c3,ci_run_id:77,build_timestamp:1700000000}"
    );
}

#[test]
fn manifest_readable_form_is_exact() {
    let m = BuildManifest::new(three_components(), "77".to_string(), 1700000000);
    assert_eq!(
        m.render(),
        "BuildManifest { core_git_sha: a1, logic_git_sha: b2, runtime_git_sha: c3, ci_run_id: 77, build_timestamp: 1700000000 }"
    );
}

#[test]
fn empty_manifest_is_valid() {
    let m = BuildManifest::new(Vec::new(), "r".to_string(), 5);
    assert_eq!(m.to_json(), "{ci_run_id:r,build_timestamp:5}");
    assert_eq!(m.render(), "BuildManifest { ci_run_id: r, build_timestamp: 5 }");
}

#[test]
fn rendering_twice_is_byte_identical() {
    let m = BuildManifest::new(three_components(), "77".to_string(), 1700000000);
    assert_eq!(m.to_json(), m.to_json());
    assert_eq!(m.render(), m.render());
    let i = BuildInfo::new(
        "deadbeef".to_string(),
        "77".to_string(),
        1700000000,
        "0.1.0".to_string(),
    );
    assert_eq!(i.to_json(), i.to_json());
}

#[test]
fn single_component_end_to_end_render() {
    let sha = get_git_sha_with_fallback(Some("deadbeef"), None, None);
    let run_id = resolve_run_id(Some("77"), 1700000000);
    let info = BuildInfo::new(sha, run_id, 1700000000, "0.1.0".to_string());
    assert_eq!(
        info.to_json(),
        "{git_sha:deadbeef,ci_run_id:77,build_timestamp:1700000000,version:0.1.0}"
    );
}

#[test]
fn no_context_end_to_end_falls_back() {
    let sha = get_git_sha_with_fallback(None, None, None);
    assert_eq!(sha, "unknown");
    let run_id = resolve_run_id(None, 1234567);
    assert_eq!(run_id, "local-1234567");
    let digits = run_id.strip_prefix("local-").expect("missing local- prefix");
    assert!(digits.chars().all(|c| c.is_ascii_digit()));
}

#[test]
fn one_component_missing_data_does_not_corrupt_another() {
    let core = get_git_sha_with_fallback(Some("a1"), None, None);
    let logic = get_git_sha_with_fallback(None, None, None);
    let m = BuildManifest::new(
        vec![
            ComponentIdentity::new("core".to_string(), core),
            ComponentIdentity::new("logic".to_string(), logic),
        ],
        "9".to_string(),
        1,
    );
    assert_eq!(
        m.to_json(),
        "{core_git_sha:a1,logic_git_sha:unknown,ci_run_id:9,build_timestamp:1}"
    );
}
