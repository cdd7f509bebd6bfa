use semverguard::error::SemverguardError;

#[test]
fn test_workspace_error_display() {
    let err = SemverguardError::Workspace("failed to load metadata".to_string());
    assert_eq!(err.message(), "workspace error: failed to load metadata");
}

#[test]
fn test_git_error_display() {
    let err = SemverguardError::Git("git diff failed".to_string());
    assert_eq!(err.message(), "git error: git diff failed");
}

#[test]
fn test_engine_error_display() {
    let err = SemverguardError::Engine("cargo-semver-checks not found".to_string());
    assert_eq!(err.message(), "engine error: cargo-semver-checks not found");
}

#[test]
fn test_invalid_config_error_display() {
    let err = SemverguardError::InvalidConfig("missing baseline rev".to_string());
    assert_eq!(err.message(), "invalid config: missing baseline rev");
}

#[test]
fn test_io_error_display() {
    let io_err = std::io::Error::new(std::io::ErrorKind::NotFound, "file not found");
    let err = SemverguardError::Io(io_err.to_string());
    assert!(err.message().contains("io error:"));
    assert!(err.message().contains("file not found"));
}

#[test]
fn test_utf8_error_display() {
    let invalid_bytes = vec![0xff, 0xfe];
    let utf8_err = String::from_utf8(invalid_bytes).unwrap_err();
    let err = SemverguardError::Utf8(utf8_err.to_string());
    assert!(err.message().contains("utf-8 error:"));
}

#[test]
fn test_missing_path_error_display() {
    let err = SemverguardError::MissingPath("/some/missing/path".to_string());
    assert_eq!(err.message(), "missing path: /some/missing/path");
}

#[test]
fn test_from_io_error() {
    let io_err = std::io::Error::new(std::io::ErrorKind::PermissionDenied, "access denied");
    let err = SemverguardError::Io(io_err.to_string());
    assert!(matches!(err, SemverguardError::Io(_)));
    assert!(err.message().contains("access denied"));
}

#[test]
fn test_from_utf8_error() {
    let invalid_bytes = vec![0x80, 0x81];
    let utf8_err = String::from_utf8(invalid_bytes).unwrap_err();
    let err = SemverguardError::Utf8(utf8_err.to_string());
    assert!(matches!(err, SemverguardError::Utf8(_)));
}

#[test]
fn test_error_debug() {
    let err = SemverguardError::Workspace("test error".to_string());
    let debug_str = format!("{err:?}");
    assert!(debug_str.contains("Workspace"));
    assert!(debug_str.contains("test error"));
}

#[test]
fn test_result_ok() {
    let result: Result<i32, SemverguardError> = Ok(42);
    assert!(result.is_ok());
    assert_eq!(result.unwrap(), 42);
}

#[test]
fn test_result_err() {
    let result: Result<i32, SemverguardError> =
        Err(SemverguardError::InvalidConfig("bad config".to_string()));
    assert!(result.is_err());
    assert!(matches!(result.unwrap_err(), SemverguardError::InvalidConfig(_)));
}

#[test]
fn test_io_error_source() {
    let io_err = std::io::Error::new(std::io::ErrorKind::NotFound, "original error");
    let err = SemverguardError::Io(io_err.to_string());
    assert!(err.has_source());
}

#[test]
fn test_utf8_error_source() {
    let invalid_bytes = vec![0xff];
    let utf8_err = String::from_utf8(invalid_bytes).unwrap_err();
    let err = SemverguardError::Utf8(utf8_err.to_string());
    assert!(err.has_source());
}

#[test]
fn test_simple_error_no_source() {
    let err = SemverguardError::Workspace("test".to_string());
    assert!(!err.has_source());
}

#[test]
fn test_error_clone_keeps_message() {
    let err = SemverguardError::Git("boom".to_string());
    let copy = err.clone();
    assert_eq!(copy.message(), "git error: boom");
}
