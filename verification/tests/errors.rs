use note_coordinator::errors::CoordinatorError;

#[test]
fn each_error_reports_its_own_message() {
    assert_eq!(CoordinatorError::IoError.message(), "file access failed");
    assert_eq!(
        CoordinatorError::HotkeyError.message(),
        "hotkey registration refused"
    );
    assert_eq!(
        CoordinatorError::ConfigError.message(),
        "application identifier not configured"
    );
    assert_eq!(
        CoordinatorError::UnsupportedPlatformError.message(),
        "feature not supported on this platform"
    );
    assert_eq!(
        CoordinatorError::WindowOperationError.message(),
        "window operation failed"
    );
}
