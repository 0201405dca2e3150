//! Autostart registration rules.
//!
//! The application can register itself with the operating system's per-user
//! startup facility, keyed by its bundle identifier. The facility is modelled
//! by what the rules read of it: whether the platform supports it, whether an
//! identifier is configured, whether the startup record can be opened, and
//! whether the registration currently exists. The host performs the actual
//! registry reads and writes that these decisions call for.

use vstd::prelude::*;
use crate::errors::CoordinatorError;

verus! {

/// The OS startup facility as the coordinator sees it.
#[derive(Clone, Copy, Debug, PartialEq, Eq, Structural)]
pub struct AutostartFacility {
    /// The platform offers a supported startup-registration mechanism.
    pub supported: bool,
    /// The application has a configured bundle identifier.
    pub bundle_configured: bool,
    /// The per-user startup record can be opened for query and update.
    pub key_accessible: bool,
    /// The startup registration currently exists.
    pub registered: bool,
}

/// What enabling or disabling autostart reports: a missing bundle identifier
/// is a configuration error, an unsupported platform is a silent no-op, an
/// inaccessible startup record is an I/O error, and otherwise the update
/// succeeds.
pub open spec fn set_enabled_result(f: AutostartFacility) -> Result<(), CoordinatorError> {
    if !f.bundle_configured {
        Err(CoordinatorError::ConfigError)
    } else if !f.supported {
        Ok(())
    } else if !f.key_accessible {
        Err(CoordinatorError::IoError)
    } else {
        Ok(())
    }
}

/// How enabling or disabling autostart changes the facility: only a
/// successful update on a supported platform touches the registration, and
/// disabling an absent registration leaves it absent (a no-op, not an error).
pub open spec fn set_enabled_step(f: AutostartFacility, enable: bool) -> AutostartFacility {
    if f.bundle_configured && f.supported && f.key_accessible {
        AutostartFacility { registered: enable, ..f }
    } else {
        f
    }
}

/// What querying autostart reports: unsupported platforms and a missing
/// bundle identifier are errors; a startup record that cannot be opened reads
/// as not registered.
pub open spec fn is_enabled_result(f: AutostartFacility) -> Result<bool, CoordinatorError> {
    if !f.supported {
        Err(CoordinatorError::UnsupportedPlatformError)
    } else if !f.bundle_configured {
        Err(CoordinatorError::ConfigError)
    } else if !f.key_accessible {
        Ok(false)
    } else {
        Ok(f.registered)
    }
}

impl AutostartFacility {
    /// Writes or removes the startup registration. Disabling when already
    /// disabled is a no-op, not an error.
    pub fn set_enabled(&mut self, enable: bool) -> (r: Result<(), CoordinatorError>)
        ensures
            *final(self) == set_enabled_step(*old(self), enable),
            r == set_enabled_result(*old(self)),
    {
        if !self.bundle_configured {
            Err(CoordinatorError::ConfigError)
        } else if !self.supported {
            Ok(())
        } else if !self.key_accessible {
            Err(CoordinatorError::IoError)
        } else {
            self.registered = enable;
            Ok(())
        }
    }

    /// Queries whether the startup registration exists.
    pub fn is_enabled(&self) -> (r: Result<bool, CoordinatorError>)
        ensures
            r == is_enabled_result(*self),
    {
        if !self.supported {
            Err(CoordinatorError::UnsupportedPlatformError)
        } else if !self.bundle_configured {
            Err(CoordinatorError::ConfigError)
        } else if !self.key_accessible {
            Ok(false)
        } else {
            Ok(self.registered)
        }
    }
}

/// The two phrasings of the tray's autostart menu item.
#[derive(Clone, Copy, Debug, PartialEq, Eq, Structural)]
pub enum TrayLabel {
    AutostartOff,
    AutostartOn,
}

/// The label that reflects a given autostart state.
pub open spec fn label_for(enabled: bool) -> TrayLabel {
    if enabled {
        TrayLabel::AutostartOn
    } else {
        TrayLabel::AutostartOff
    }
}

/// The text each label shows.
pub open spec fn label_text(l: TrayLabel) -> Seq<char> {
    match l {
        TrayLabel::AutostartOff => "autostart"@,
        TrayLabel::AutostartOn => "autostart (enabled)"@,
    }
}

impl TrayLabel {
    /// The text the tray menu shows for this label.
    pub fn text(&self) -> (r: String)
        ensures
            r@ == label_text(*self),
    {
        match self {
            TrayLabel::AutostartOff => String::from_str("autostart"),
            TrayLabel::AutostartOn => String::from_str("autostart (enabled)"),
        }
    }
}

/// How a tray click on the autostart item changes the facility and the menu
/// label: the current state is read, flipped, and written back, and the label
/// is updated only when the write succeeded. Any failure is swallowed and
/// leaves both untouched.
pub open spec fn tray_autostart_step(f: AutostartFacility, l: TrayLabel) -> (
    AutostartFacility,
    TrayLabel,
) {
    match is_enabled_result(f) {
        Err(_) => (f, l),
        Ok(enabled) => {
            if set_enabled_result(f) is Ok {
                (set_enabled_step(f, !enabled), label_for(!enabled))
            } else {
                (f, l)
            }
        },
    }
}

/// Handles a tray-menu click on the autostart item: flip the registration
/// and relabel the item, or change nothing when the facility refuses.
pub fn handle_tray_autostart_click(facility: &mut AutostartFacility, label: &mut TrayLabel)
    ensures
        *final(facility) == tray_autostart_step(*old(facility), *old(label)).0,
        *final(label) == tray_autostart_step(*old(facility), *old(label)).1,
{
    match facility.is_enabled() {
        Err(_) => {},
        Ok(enabled) => {
            match facility.set_enabled(!enabled) {
                Ok(_) => {
                    *label = if !enabled {
                        TrayLabel::AutostartOn
                    } else {
                        TrayLabel::AutostartOff
                    };
                },
                Err(_) => {},
            }
        },
    }
}

/// Enabling autostart is visible to the next query, disabling likewise, and
/// disabling when already disabled succeeds without changing anything —
/// provided the platform supports the facility, an identifier is configured,
/// and the startup record can be opened.
pub proof fn lemma_set_then_query(f: AutostartFacility, enable: bool)
    requires
        f.supported,
        f.bundle_configured,
        f.key_accessible,
    ensures
        set_enabled_result(f) is Ok,
        is_enabled_result(set_enabled_step(f, enable)) == Ok::<bool, CoordinatorError>(enable),
        !f.registered ==> set_enabled_step(f, false) == f,
{
}

} // verus!
