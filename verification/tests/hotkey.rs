use note_coordinator::errors::CoordinatorError;
use note_coordinator::hotkey::{default_note_chord, HotkeyRegistry};

#[test]
fn default_chord_is_the_note_creation_chord() {
    assert_eq!(default_note_chord(), "CommandOrControl+Alt+N");
}

#[test]
fn binding_twice_leaves_one_registration() {
    let mut reg = HotkeyRegistry::new();
    assert_eq!(reg.bind(default_note_chord()), Ok(()));
    assert_eq!(reg.bind(default_note_chord()), Ok(()));
    assert_eq!(reg.note_chord, Some(String::from("CommandOrControl+Alt+N")));
    assert!(reg.foreign.is_empty());
}

#[test]
fn rebinding_replaces_the_old_chord() {
    let mut reg = HotkeyRegistry::new();
    assert_eq!(reg.bind(default_note_chord()), Ok(()));
    assert_eq!(reg.bind(String::from("Ctrl+Shift+K")), Ok(()));
    assert_eq!(reg.note_chord, Some(String::from("Ctrl+Shift+K")));
}

#[test]
fn conflicting_chord_is_refused_and_binding_kept() {
    let mut reg = HotkeyRegistry::new();
    reg.claim_foreign(String::from("Ctrl+Alt+X"));
    assert_eq!(reg.bind(default_note_chord()), Ok(()));
    assert_eq!(
        reg.bind(String::from("Ctrl+Alt+X")),
        Err(CoordinatorError::HotkeyError)
    );
    assert_eq!(reg.note_chord, Some(String::from("CommandOrControl+Alt+N")));
    assert_eq!(reg.foreign, vec![String::from("Ctrl+Alt+X")]);
}

#[test]
fn unbind_tolerates_no_registration() {
    let mut reg = HotkeyRegistry::new();
    reg.unbind();
    assert_eq!(reg.note_chord, None);
    assert_eq!(reg.bind(default_note_chord()), Ok(()));
    reg.unbind();
    reg.unbind();
    assert_eq!(reg.note_chord, None);
}
