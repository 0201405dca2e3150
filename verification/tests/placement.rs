use note_coordinator::placement::{resolve_monitor, spawn_position, MonitorSize};

#[test]
fn spawn_position_on_full_hd() {
    let m = resolve_monitor(Some(MonitorSize {
        width: 1920,
        height: 1080,
    }));
    assert_eq!(spawn_position(m), (1420, 480));
}

#[test]
fn spawn_position_uses_fallback_on_query_failure() {
    let m = resolve_monitor(None);
    assert_eq!(m, MonitorSize {
        width: 1920,
        height: 1080,
    });
    assert_eq!(spawn_position(m), (1420, 480));
}

#[test]
fn spawn_position_on_larger_monitor() {
    let m = resolve_monitor(Some(MonitorSize {
        width: 2560,
        height: 1440,
    }));
    assert_eq!(spawn_position(m), (2060, 840));
}

#[test]
fn spawn_position_goes_negative_on_tiny_monitor() {
    let m = resolve_monitor(Some(MonitorSize {
        width: 300,
        height: 200,
    }));
    assert_eq!(spawn_position(m), (-200, -400));
}
