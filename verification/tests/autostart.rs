use note_coordinator::autostart::{handle_tray_autostart_click, AutostartFacility, TrayLabel};
use note_coordinator::errors::CoordinatorError;

fn working_facility() -> AutostartFacility {
    AutostartFacility {
        supported: true,
        bundle_configured: true,
        key_accessible: true,
        registered: false,
    }
}

#[test]
fn toggling_autostart_is_visible_to_the_next_query() {
    let mut f = working_facility();
    assert_eq!(f.set_enabled(true), Ok(()));
    assert_eq!(f.is_enabled(), Ok(true));
    assert_eq!(f.set_enabled(false), Ok(()));
    assert_eq!(f.is_enabled(), Ok(false));
}

#[test]
fn disabling_when_already_disabled_is_a_no_op() {
    let mut f = working_facility();
    let before = f;
    assert_eq!(f.set_enabled(false), Ok(()));
    assert_eq!(f, before);
    assert_eq!(f.is_enabled(), Ok(false));
}

#[test]
fn missing_bundle_identifier_is_a_config_error() {
    let mut f = working_facility();
    f.bundle_configured = false;
    assert_eq!(f.set_enabled(true), Err(CoordinatorError::ConfigError));
    assert_eq!(f.is_enabled(), Err(CoordinatorError::ConfigError));
    assert!(!f.registered);
}

#[test]
fn unsupported_platform_cannot_be_queried() {
    let mut f = working_facility();
    f.supported = false;
    assert_eq!(
        f.is_enabled(),
        Err(CoordinatorError::UnsupportedPlatformError)
    );
    assert_eq!(f.set_enabled(true), Ok(()));
    assert!(!f.registered);
}

#[test]
fn inaccessible_startup_record_reads_disabled_and_refuses_updates() {
    let mut f = working_facility();
    f.key_accessible = false;
    assert_eq!(f.is_enabled(), Ok(false));
    assert_eq!(f.set_enabled(true), Err(CoordinatorError::IoError));
    assert!(!f.registered);
}

#[test]
fn tray_click_flips_registration_and_relabels() {
    let mut f = working_facility();
    let mut label = TrayLabel::AutostartOff;
    handle_tray_autostart_click(&mut f, &mut label);
    assert!(f.registered);
    assert_eq!(label, TrayLabel::AutostartOn);
    handle_tray_autostart_click(&mut f, &mut label);
    assert!(!f.registered);
    assert_eq!(label, TrayLabel::AutostartOff);
}

#[test]
fn tray_click_failure_changes_nothing() {
    let mut f = working_facility();
    f.key_accessible = false;
    let mut label = TrayLabel::AutostartOff;
    handle_tray_autostart_click(&mut f, &mut label);
    assert!(!f.registered);
    assert_eq!(label, TrayLabel::AutostartOff);

    let mut g = working_facility();
    g.supported = false;
    let mut stale = TrayLabel::AutostartOn;
    handle_tray_autostart_click(&mut g, &mut stale);
    assert_eq!(g, {
        let mut h = working_facility();
        h.supported = false;
        h
    });
    assert_eq!(stale, TrayLabel::AutostartOn);
}

#[test]
fn tray_labels_have_distinct_text() {
    assert_eq!(TrayLabel::AutostartOff.text(), "autostart");
    assert_eq!(TrayLabel::AutostartOn.text(), "autostart (enabled)");
}
