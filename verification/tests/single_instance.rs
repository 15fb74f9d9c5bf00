use x360ce::single_instance::{
    already_running_message, classify_running_build, BuildKind, DEVELOPMENT_MUTEX_NAME,
    PRODUCTION_MUTEX_NAME,
};

#[test]
fn explains_development_to_production_conflict() {
    let message = already_running_message(BuildKind::Development, BuildKind::Production);

    assert!(message.contains("development build is already running"));
    assert!(message.contains("production build"));
    assert!(message.contains("Quit x360ce"));
}

#[test]
fn explains_production_to_development_conflict() {
    let message = already_running_message(BuildKind::Production, BuildKind::Development);

    assert!(message.contains("production build is already running"));
    assert!(message.contains("development build"));
    assert!(message.contains("Quit x360ce"));
}

#[test]
fn same_build_conflicts_say_start_again() {
    assert_eq!(
        already_running_message(BuildKind::Production, BuildKind::Production),
        "x360ce is already running.\n\nRight-click the x360ce tray icon and choose \"Quit x360ce\" before starting it again."
    );
    assert!(already_running_message(BuildKind::Development, BuildKind::Development)
        .starts_with("x360ce development build is already running."));
    assert!(already_running_message(BuildKind::Unknown, BuildKind::Production)
        .starts_with("Another x360ce instance is already running."));
}

#[test]
fn build_window_titles() {
    assert_eq!(
        BuildKind::Development.window_title("1.4.0"),
        Some("x360ce v1.4.0-dev".to_string())
    );
    assert_eq!(
        BuildKind::Production.window_title("1.4.0"),
        Some("x360ce v1.4.0".to_string())
    );
    assert_eq!(BuildKind::Unknown.window_title("1.4.0"), None);
}

#[test]
fn build_mutexes_and_current_kind() {
    assert_eq!(BuildKind::Development.mutex_name(), Some(DEVELOPMENT_MUTEX_NAME));
    assert_eq!(BuildKind::Production.mutex_name(), Some(PRODUCTION_MUTEX_NAME));
    assert_eq!(BuildKind::Unknown.mutex_name(), None);
    assert_eq!(BuildKind::current(true), BuildKind::Development);
    assert_eq!(BuildKind::current(false), BuildKind::Production);
}

#[test]
fn running_build_known_only_when_one_is_seen() {
    assert_eq!(classify_running_build(true, false), Some(BuildKind::Development));
    assert_eq!(classify_running_build(false, true), Some(BuildKind::Production));
    assert_eq!(classify_running_build(true, true), None);
    assert_eq!(classify_running_build(false, false), None);
}
