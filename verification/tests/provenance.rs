use build_support::{
    get_git_sha, get_git_sha_with_fallback, local_run_id, resolve_run_id, trim_str, u64_to_string,
};

#[test]
fn override_wins_over_all_other_sources() {
    let r = get_git_sha_with_fallback(Some("feedface"), Some("cafebabe"), Some("abc123\n"));
    assert_eq!(r, "feedface");
    let r = get_git_sha_with_fallback(Some("feedface"), None, None);
    assert_eq!(r, "feedface");
}

#[test]
fn ci_variable_wins_when_no_override() {
    let r = get_git_sha_with_fallback(None, Some("cafebabe"), Some("abc123\n"));
    assert_eq!(r, "cafebabe");
    let r = get_git_sha_with_fallback(None, Some("cafebabe"), None);
    assert_eq!(r, "cafebabe");
}

#[test]
fn probe_output_is_trimmed() {
    let r = get_git_sha_with_fallback(None, None, Some("abc123\n"));
    assert_eq!(r, "abc123");
    assert_eq!(get_git_sha(Some("abc123\n")), "abc123");
    assert_eq!(get_git_sha(Some("  abc123 \r\n")), "abc123");
}

#[test]
fn probe_failure_yields_sentinel() {
    let r = get_git_sha_with_fallback(None, None, None);
    assert_eq!(r, "unknown");
    assert_eq!(get_git_sha(None), "unknown");
}

#[test]
fn whitespace_only_probe_output_yields_sentinel() {
    assert_eq!(get_git_sha(Some("")), "unknown");
    assert_eq!(get_git_sha(Some(" \t\r\n")), "unknown");
    assert_eq!(get_git_sha_with_fallback(None, None, Some("\n")), "unknown");
}

#[test]
fn synthesized_run_id_has_local_pattern() {
    for secs in [0u64, 7, 1700000000, u64::MAX] {
        let id = resolve_run_id(None, secs);
        let digits = id.strip_prefix("local-").expect("missing local- prefix");
        assert!(!digits.is_empty());
        assert!(digits.chars().all(|c| c.is_ascii_digit()));
    }
    assert_eq!(local_run_id(0), "local-0");
    assert_eq!(local_run_id(1700000000), "local-1700000000");
}

#[test]
fn ci_run_id_is_taken_verbatim() {
    assert_eq!(resolve_run_id(Some("77"), 1700000000), "77");
}

#[test]
fn trim_removes_surrounding_whitespace_only() {
    assert_eq!(trim_str("abc123\n"), "abc123");
    assert_eq!(trim_str("  a b  "), "a b");
    assert_eq!(trim_str(""), "");
    assert_eq!(trim_str(" \t\r\n"), "");
    assert_eq!(trim_str("\u{3000}xyz\u{2028}"), "xyz");
    assert_eq!(trim_str("no-space"), "no-space");
}

#[test]
fn decimal_rendering_is_exact() {
    assert_eq!(u64_to_string(0), "0");
    assert_eq!(u64_to_string(7), "7");
    assert_eq!(u64_to_string(10), "10");
    assert_eq!(u64_to_string(1700000000), "1700000000");
    assert_eq!(u64_to_string(u64::MAX), "18446744073709551615");
}
