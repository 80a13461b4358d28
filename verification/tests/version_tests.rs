use libcamera::version::{
    accept_version, harvest_versions, parse_version, resolve_version, version_from_tag,
    MatchPolicy, Version,
};

fn v(major: u64, minor: u64, patch: u64) -> Version {
    Version { major, minor, patch }
}

#[test]
fn parses_plain_versions() {
    assert_eq!(parse_version(b"1.2.3"), Some(v(1, 2, 3)));
    assert_eq!(parse_version(b"0.4.0"), Some(v(0, 4, 0)));
    assert_eq!(parse_version(b"nonsense"), None);
    assert_eq!(parse_version(b""), None);
}

#[test]
fn parses_tag_names() {
    assert_eq!(version_from_tag(b"refs/tags/v0.4.0"), Some(v(0, 4, 0)));
    assert_eq!(version_from_tag(b"v1.0.0"), Some(v(1, 0, 0)));
    // The trailing segment must carry the v prefix.
    assert_eq!(version_from_tag(b"refs/tags/0.4.0"), None);
    assert_eq!(version_from_tag(b"refs/tags/vgarbage"), None);
}

#[test]
fn sentinel_and_floor_are_never_harvested() {
    let tags: Vec<Vec<u8>> = vec![
        b"refs/tags/v0.0.0".to_vec(),
        b"refs/tags/v0.2.0".to_vec(),
        b"refs/tags/v0.4.0".to_vec(),
        b"refs/tags/v0.5.1".to_vec(),
        b"refs/tags/not-a-version".to_vec(),
        b"refs/tags/v0.4.0".to_vec(), // duplicate tag
        b"refs/tags/v1.0.0".to_vec(),
    ];
    let floor = v(0, 4, 0);
    let got = harvest_versions(&tags, &floor);
    assert_eq!(got, vec![v(0, 4, 0), v(0, 5, 1), v(1, 0, 0)]);
    for w in &got {
        assert!(!(w.major == 0 && w.minor == 0 && w.patch == 0));
        assert!(floor.le(w));
    }
}

#[test]
fn accept_version_rejects_sentinel() {
    assert!(!accept_version(&v(0, 0, 0), &v(0, 4, 0)));
    assert!(!accept_version(&v(0, 3, 9), &v(0, 4, 0)));
    assert!(accept_version(&v(0, 4, 0), &v(0, 4, 0)));
    assert!(accept_version(&v(2, 0, 0), &v(0, 4, 0)));
}

#[test]
fn exact_policy_requires_identity() {
    // Under the exact policy, candidate 0.5.2 does not match runtime 0.5.9.
    assert!(!v(0, 5, 2).matches(&v(0, 5, 9), MatchPolicy::Exact));
    assert!(v(0, 5, 2).matches(&v(0, 5, 2), MatchPolicy::Exact));
}

#[test]
fn caret_policy_is_forward_compatible() {
    // Under the caret policy, candidate 0.5.2 matches runtime 0.5.9: same
    // breaking boundary and the runtime is not older than the candidate.
    assert!(v(0, 5, 2).matches(&v(0, 5, 9), MatchPolicy::Caret));
    assert!(!v(0, 5, 2).matches(&v(0, 5, 1), MatchPolicy::Caret));
    assert!(!v(0, 5, 2).matches(&v(0, 6, 0), MatchPolicy::Caret));
    assert!(v(1, 0, 0).matches(&v(1, 9, 3), MatchPolicy::Caret));
    assert!(!v(1, 0, 0).matches(&v(2, 0, 0), MatchPolicy::Caret));
}

#[test]
fn resolves_highest_matching_candidate() {
    // Available 0.4.0, 1.0.0, 1.2.3 against runtime 1.1.0 under the caret
    // policy: 1.2.3 exceeds the runtime, 0.4.0 has a different major, so
    // 1.0.0 is selected.
    let candidates = vec![v(0, 4, 0), v(1, 0, 0), v(1, 2, 3)];
    let got = resolve_version(&candidates, &v(1, 1, 0), MatchPolicy::Caret);
    assert_eq!(got, Some(v(1, 0, 0)));
}

#[test]
fn resolve_fails_when_nothing_matches() {
    let candidates = vec![v(0, 4, 0), v(0, 5, 0)];
    assert_eq!(resolve_version(&candidates, &v(2, 0, 0), MatchPolicy::Caret), None);
    assert_eq!(resolve_version(&candidates, &v(0, 5, 1), MatchPolicy::Exact), None);
}

#[test]
fn resolve_prefers_newest_exact_duplicateless() {
    let candidates = vec![v(0, 4, 0), v(0, 4, 2), v(0, 4, 7)];
    let got = resolve_version(&candidates, &v(0, 4, 9), MatchPolicy::Caret);
    assert_eq!(got, Some(v(0, 4, 7)));
}
