//! The window lifecycle coordinator.
//!
//! One persistent main window is hidden on close rather than destroyed, so
//! the process outlives its window; only the tray's quit selection ends it.
//! A tray left-click strictly toggles the main window's visibility. A hotkey
//! trigger creates a new transient note window at the bottom-right spawn
//! position and notifies the main window. The coordinator turns each incoming
//! event into a new state and a list of window operations for the host to
//! perform.

use vstd::prelude::*;
use crate::placement::{
    MonitorSize, NOTE_WINDOW_HEIGHT, NOTE_WINDOW_WIDTH, effective_size, resolve_monitor,
    spawn_position, spawn_x, spawn_y,
};

verus! {

/// The two states a tracked window can be in.
#[derive(Clone, Copy, Debug, PartialEq, Eq, Structural)]
pub enum WindowVisibility {
    Visible,
    Hidden,
}

/// The opposite visibility.
pub open spec fn toggled(v: WindowVisibility) -> WindowVisibility {
    match v {
        WindowVisibility::Visible => WindowVisibility::Hidden,
        WindowVisibility::Hidden => WindowVisibility::Visible,
    }
}

/// The coordinator's view of the session.
#[derive(Clone, Copy, Debug, PartialEq, Eq, Structural)]
pub struct SessionState {
    /// Visibility of the persistent main window.
    pub main_visibility: WindowVisibility,
    /// Whether the process keeps running.
    pub running: bool,
    /// How many transient note windows have been spawned and not destroyed
    /// by the user. Tracked for their existence only.
    pub open_notes: u64,
}

/// What happened, independent of how the host delivered it.
#[derive(Clone, Copy, Debug, PartialEq, Eq)]
pub enum SessionEvent {
    /// The user asked to close the main window through its chrome.
    MainCloseRequested,
    /// The user left-clicked the tray icon.
    TrayLeftClick,
    /// The user selected "show" in the tray menu.
    TrayShowSelected,
    /// The user selected "quit" in the tray menu.
    TrayQuitSelected,
    /// The bound global hotkey fired; the monitor query result comes along.
    HotkeyTriggered { monitor: Option<MonitorSize> },
    /// The front end asked to minimize the main window.
    MinimizeRequested,
    /// The front end asked to hide the main window.
    HideRequested,
}

/// A window operation the host must perform.
#[derive(Clone, Copy, Debug, PartialEq, Eq)]
pub enum SessionAction {
    /// Hide the main window.
    HideMain,
    /// Show the main window.
    ShowMain,
    /// Focus the main window.
    FocusMain,
    /// Suppress the default destroy of the main window.
    PreventClose,
    /// Terminate the process.
    ExitProcess,
    /// Minimize the main window.
    MinimizeMain,
    /// Create a borderless transient note window at the given position and
    /// size.
    CreateNoteWindow { x: i64, y: i64, width: u32, height: u32 },
    /// Focus the note window just created.
    FocusNoteWindow,
    /// Tell the main window's content view that a note was created.
    EmitNoteCreated,
}

/// The state after one event is handled.
pub open spec fn step(s: SessionState, ev: SessionEvent) -> SessionState {
    match ev {
        SessionEvent::MainCloseRequested => SessionState {
            main_visibility: WindowVisibility::Hidden,
            ..s
        },
        SessionEvent::TrayLeftClick => SessionState {
            main_visibility: toggled(s.main_visibility),
            ..s
        },
        SessionEvent::TrayShowSelected => SessionState {
            main_visibility: WindowVisibility::Visible,
            ..s
        },
        SessionEvent::TrayQuitSelected => SessionState { running: false, ..s },
        SessionEvent::HotkeyTriggered { .. } => SessionState {
            open_notes: if s.open_notes < u64::MAX {
                (s.open_notes + 1) as u64
            } else {
                s.open_notes
            },
            ..s
        },
        SessionEvent::MinimizeRequested => s,
        SessionEvent::HideRequested => SessionState {
            main_visibility: WindowVisibility::Hidden,
            ..s
        },
    }
}

/// The window operations one event calls for.
pub open spec fn actions(s: SessionState, ev: SessionEvent) -> Seq<SessionAction> {
    match ev {
        SessionEvent::MainCloseRequested => seq![
            SessionAction::HideMain,
            SessionAction::PreventClose,
        ],
        SessionEvent::TrayLeftClick => if s.main_visibility is Visible {
            seq![SessionAction::HideMain]
        } else {
            seq![SessionAction::ShowMain, SessionAction::FocusMain]
        },
        SessionEvent::TrayShowSelected => seq![SessionAction::ShowMain, SessionAction::FocusMain],
        SessionEvent::TrayQuitSelected => seq![SessionAction::ExitProcess],
        SessionEvent::HotkeyTriggered { monitor } => seq![
            SessionAction::CreateNoteWindow {
                x: spawn_x(effective_size(monitor)) as i64,
                y: spawn_y(effective_size(monitor)) as i64,
                width: NOTE_WINDOW_WIDTH,
                height: NOTE_WINDOW_HEIGHT,
            },
            SessionAction::FocusNoteWindow,
            SessionAction::EmitNoteCreated,
        ],
        SessionEvent::MinimizeRequested => seq![SessionAction::MinimizeMain],
        SessionEvent::HideRequested => seq![SessionAction::HideMain],
    }
}

impl SessionState {
    /// The session at process start: the main window is visible, the process
    /// runs, and no note window exists yet.
    pub fn new() -> (s: SessionState)
        ensures
            s == (SessionState {
                main_visibility: WindowVisibility::Visible,
                running: true,
                open_notes: 0,
            }),
    {
        SessionState { main_visibility: WindowVisibility::Visible, running: true, open_notes: 0 }
    }

    /// Handles one event: moves to the next state and returns the window
    /// operations the host must perform, in order.
    pub fn handle_event(&mut self, event: SessionEvent) -> (acts: Vec<SessionAction>)
        ensures
            *final(self) == step(*old(self), event),
            acts@ == actions(*old(self), event),
    {
        let mut acts: Vec<SessionAction> = Vec::new();
        match event {
            SessionEvent::MainCloseRequested => {
                self.main_visibility = WindowVisibility::Hidden;
                acts.push(SessionAction::HideMain);
                acts.push(SessionAction::PreventClose);
            },
            SessionEvent::TrayLeftClick => {
                match self.main_visibility {
                    WindowVisibility::Visible => {
                        self.main_visibility = WindowVisibility::Hidden;
                        acts.push(SessionAction::HideMain);
                    },
                    WindowVisibility::Hidden => {
                        self.main_visibility = WindowVisibility::Visible;
                        acts.push(SessionAction::ShowMain);
                        acts.push(SessionAction::FocusMain);
                    },
                }
            },
            SessionEvent::TrayShowSelected => {
                self.main_visibility = WindowVisibility::Visible;
                acts.push(SessionAction::ShowMain);
                acts.push(SessionAction::FocusMain);
            },
            SessionEvent::TrayQuitSelected => {
                self.running = false;
                acts.push(SessionAction::ExitProcess);
            },
            SessionEvent::HotkeyTriggered { monitor } => {
                let m = resolve_monitor(monitor);
                let (x, y) = spawn_position(m);
                acts.push(
                    SessionAction::CreateNoteWindow {
                        x,
                        y,
                        width: NOTE_WINDOW_WIDTH,
                        height: NOTE_WINDOW_HEIGHT,
                    },
                );
                acts.push(SessionAction::FocusNoteWindow);
                acts.push(SessionAction::EmitNoteCreated);
                if self.open_notes < u64::MAX {
                    self.open_notes = self.open_notes + 1;
                }
            },
            SessionEvent::MinimizeRequested => {
                acts.push(SessionAction::MinimizeMain);
            },
            SessionEvent::HideRequested => {
                self.main_visibility = WindowVisibility::Hidden;
                acts.push(SessionAction::HideMain);
            },
        }
        proof {
            assert(acts@ =~= actions(*old(self), event));
        }
        acts
    }
}

/// The entries of the tray menu, identified by their stable string ids.
#[derive(Clone, Copy, Debug, PartialEq, Eq, Structural)]
pub enum TrayMenuSelection {
    ShowWindow,
    Autostart,
    Quit,
}

/// Which tray menu entry a stable identifier names, if any.
pub open spec fn tray_selection_of(id: Seq<char>) -> Option<TrayMenuSelection> {
    if id == "quit"@ {
        Some(TrayMenuSelection::Quit)
    } else if id == "show"@ {
        Some(TrayMenuSelection::ShowWindow)
    } else if id == "autostart"@ {
        Some(TrayMenuSelection::Autostart)
    } else {
        None
    }
}

/// Maps a tray menu identifier to the selection it stands for. Unknown
/// identifiers mean nothing and are ignored.
pub fn tray_selection(id: &String) -> (r: Option<TrayMenuSelection>)
    ensures
        r == tray_selection_of(id@),
{
    if *id == String::from_str("quit") {
        Some(TrayMenuSelection::Quit)
    } else if *id == String::from_str("show") {
        Some(TrayMenuSelection::ShowWindow)
    } else if *id == String::from_str("autostart") {
        Some(TrayMenuSelection::Autostart)
    } else {
        None
    }
}

/// The name of the notification broadcast to the main window whenever a
/// transient note window was spawned.
pub fn note_created_event() -> (r: String)
    ensures
        r@ == "create-new-note"@,
{
    String::from_str("create-new-note")
}

/// Closing the main window never terminates the process: the close is turned
/// into a hide, the default destroy is suppressed, and the process keeps its
/// running state.
pub proof fn lemma_close_never_quits(s: SessionState)
    ensures
        step(s, SessionEvent::MainCloseRequested).running == s.running,
        step(s, SessionEvent::MainCloseRequested).main_visibility is Hidden,
        !actions(s, SessionEvent::MainCloseRequested).contains(SessionAction::ExitProcess),
        actions(s, SessionEvent::MainCloseRequested).contains(SessionAction::PreventClose),
{
    let a = actions(s, SessionEvent::MainCloseRequested);
    assert(a[1] == SessionAction::PreventClose);
    assert forall|i: int| 0 <= i < a.len() implies a[i] != SessionAction::ExitProcess by {
        assert(a[0] == SessionAction::HideMain);
        assert(a[1] == SessionAction::PreventClose);
    }
}

/// Only the tray's quit selection stops the process: no other event ever
/// asks the host to exit or clears the running flag.
pub proof fn lemma_only_quit_exits(s: SessionState, ev: SessionEvent)
    ensures
        actions(s, ev).contains(SessionAction::ExitProcess) ==> ev == SessionEvent::TrayQuitSelected,
        !step(s, ev).running ==> !s.running || ev == SessionEvent::TrayQuitSelected,
{
    let a = actions(s, ev);
    if ev != SessionEvent::TrayQuitSelected {
        assert forall|i: int| 0 <= i < a.len() implies a[i] != SessionAction::ExitProcess by {
            match ev {
                SessionEvent::MainCloseRequested => {
                    assert(a[0] == SessionAction::HideMain);
                    assert(a[1] == SessionAction::PreventClose);
                },
                SessionEvent::TrayLeftClick => {
                    if s.main_visibility is Visible {
                        assert(a[0] == SessionAction::HideMain);
                    } else {
                        assert(a[0] == SessionAction::ShowMain);
                        assert(a[1] == SessionAction::FocusMain);
                    }
                },
                SessionEvent::TrayShowSelected => {
                    assert(a[0] == SessionAction::ShowMain);
                    assert(a[1] == SessionAction::FocusMain);
                },
                SessionEvent::TrayQuitSelected => {},
                SessionEvent::HotkeyTriggered { monitor } => {
                    assert(a[1] == SessionAction::FocusNoteWindow);
                    assert(a[2] == SessionAction::EmitNoteCreated);
                },
                SessionEvent::MinimizeRequested => {
                    assert(a[0] == SessionAction::MinimizeMain);
                },
                SessionEvent::HideRequested => {
                    assert(a[0] == SessionAction::HideMain);
                },
            }
        }
    }
}

/// A tray left-click is a strict visibility toggle: one click always changes
/// the main window's visibility, and two consecutive clicks restore the whole
/// original state.
pub proof fn lemma_left_click_is_strict_toggle(s: SessionState)
    ensures
        step(s, SessionEvent::TrayLeftClick).main_visibility != s.main_visibility,
        step(step(s, SessionEvent::TrayLeftClick), SessionEvent::TrayLeftClick) == s,
{
}

} // verus!
