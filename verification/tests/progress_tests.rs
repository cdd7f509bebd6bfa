use semverguard::cli::{progress_reporter_kind, ProgressChoice, ReporterKind};

#[test]
fn test_progress_choice_default() {
    assert_eq!(ProgressChoice::default(), ProgressChoice::Auto);
}

#[test]
fn test_reporter_kind_never_is_noop() {
    assert!(matches!(progress_reporter_kind(ProgressChoice::Never, true), ReporterKind::Noop));
    assert!(matches!(progress_reporter_kind(ProgressChoice::Never, false), ReporterKind::Noop));
}

#[test]
fn test_reporter_kind_always_is_terminal() {
    assert!(matches!(progress_reporter_kind(ProgressChoice::Always, false), ReporterKind::Terminal));
}

#[test]
fn test_reporter_kind_auto_follows_terminal() {
    assert!(matches!(progress_reporter_kind(ProgressChoice::Auto, true), ReporterKind::Terminal));
    assert!(matches!(progress_reporter_kind(ProgressChoice::Auto, false), ReporterKind::Line));
}
