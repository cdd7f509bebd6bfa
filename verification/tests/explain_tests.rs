use semverguard::explain::{all, lookup, lookup_by_check_id};

#[test]
fn test_lookup_semver_violation() {
    let exp = lookup("semver", "violation").expect("should find semver/violation");
    assert_eq!(exp.title, "SemVer Policy Violation");
    assert_eq!(exp.default_level, "error");
}

#[test]
fn test_lookup_baseline_missing() {
    let exp = lookup("baseline", "missing").expect("should find baseline/missing");
    assert_eq!(exp.title, "Baseline Resolution Error");
    assert_eq!(exp.default_level, "warning");
}

#[test]
fn test_lookup_tool_runtime() {
    let exp = lookup("tool.runtime", "runtime_error")
        .expect("should find tool.runtime/runtime_error");
    assert_eq!(exp.title, "Tool/Runtime Error");
}

#[test]
fn test_lookup_engine_unknown() {
    let exp = lookup("engine", "unknown").expect("should find engine/unknown");
    assert_eq!(exp.title, "Unclassifiable Engine Failure");
}

#[test]
fn test_lookup_nonexistent() {
    assert!(lookup("nonexistent", "code").is_none());
}

#[test]
fn test_lookup_by_check_id() {
    let results = lookup_by_check_id("semver");
    assert_eq!(results.len(), 1);
    assert_eq!(results[0].code, "violation");
}

#[test]
fn test_all_returns_registry() {
    let entries = all();
    assert_eq!(entries.len(), 4);
}

#[test]
fn test_lookup_wrong_code_for_known_check() {
    assert!(lookup("semver", "missing").is_none());
}

#[test]
fn test_lookup_by_unknown_check_id_is_empty() {
    assert!(lookup_by_check_id("nonexistent").is_empty());
}

#[test]
fn test_registry_entries_have_causes_and_fixes() {
    for e in all() {
        assert!(!e.causes.is_empty());
        assert!(!e.fixes.is_empty());
    }
}
