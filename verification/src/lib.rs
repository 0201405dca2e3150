//! Backend coordination logic for a desktop sticky-notes application.
//!
//! The library is the verified core of the runtime: the window lifecycle
//! coordinator (visibility state machine for the persistent main window and
//! spawn placement for transient note windows), the global hotkey binding
//! rules, the autostart registration rules, the note-store persistence model,
//! and the screenshot filename builder. The host windowing system, the
//! registry, and the file system are driven by a thin unverified shell that
//! asks this library for every decision.

pub mod autostart;
pub mod errors;
pub mod hotkey;
pub mod placement;
pub mod screenshot;
pub mod session;
pub mod store;
