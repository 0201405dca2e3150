//! Spawn placement for transient note windows.
//!
//! A new note window is placed a fixed margin away from the bottom-right
//! corner of the current monitor. When the monitor cannot be queried, a fixed
//! default resolution stands in.

use vstd::prelude::*;

verus! {

/// Width of a transient note window, in screen units.
pub const NOTE_WINDOW_WIDTH: u32 = 400;

/// Height of a transient note window, in screen units.
pub const NOTE_WINDOW_HEIGHT: u32 = 500;

/// Distance kept between a new note window and the monitor's bottom-right
/// corner, in screen units.
pub const SPAWN_MARGIN: u32 = 100;

/// Monitor width assumed when the monitor query fails.
pub const DEFAULT_MONITOR_WIDTH: u32 = 1920;

/// Monitor height assumed when the monitor query fails.
pub const DEFAULT_MONITOR_HEIGHT: u32 = 1080;

/// A monitor resolution in physical screen units.
#[derive(Clone, Copy, Debug, PartialEq, Eq, Structural)]
pub struct MonitorSize {
    pub width: u32,
    pub height: u32,
}

/// The monitor size placement works against: the queried size when the query
/// succeeded, the fixed default resolution otherwise.
pub open spec fn effective_size(query: Option<MonitorSize>) -> MonitorSize {
    match query {
        Some(m) => m,
        None => MonitorSize { width: DEFAULT_MONITOR_WIDTH, height: DEFAULT_MONITOR_HEIGHT },
    }
}

/// Horizontal spawn coordinate on a monitor: the window sits a fixed margin
/// left of the right edge. Negative when the monitor is narrower than window
/// plus margin.
pub open spec fn spawn_x(m: MonitorSize) -> int {
    m.width - NOTE_WINDOW_WIDTH - SPAWN_MARGIN
}

/// Vertical spawn coordinate on a monitor: the window sits a fixed margin
/// above the bottom edge. Negative when the monitor is shorter than window
/// plus margin.
pub open spec fn spawn_y(m: MonitorSize) -> int {
    m.height - NOTE_WINDOW_HEIGHT - SPAWN_MARGIN
}

/// Resolves the monitor size to place against, substituting the fixed default
/// resolution when the query failed.
pub fn resolve_monitor(query: Option<MonitorSize>) -> (m: MonitorSize)
    ensures
        m == effective_size(query),
{
    match query {
        Some(m) => m,
        None => MonitorSize { width: DEFAULT_MONITOR_WIDTH, height: DEFAULT_MONITOR_HEIGHT },
    }
}

/// Computes the bottom-right spawn position of a new note window on the given
/// monitor.
pub fn spawn_position(m: MonitorSize) -> (p: (i64, i64))
    ensures
        p.0 == spawn_x(m),
        p.1 == spawn_y(m),
{
    let x: i64 = (m.width as i64) - (NOTE_WINDOW_WIDTH as i64) - (SPAWN_MARGIN as i64);
    let y: i64 = (m.height as i64) - (NOTE_WINDOW_HEIGHT as i64) - (SPAWN_MARGIN as i64);
    (x, y)
}

} // verus!
