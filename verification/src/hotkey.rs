//! Global hotkey binding rules.
//!
//! One key chord at a time is bound process-wide to note creation. Rebinding
//! replaces the old registration; registering a chord that another in-process
//! handler already claims is a conflict and leaves the current binding alone.
//! The host's shortcut manager performs the actual OS registration and is
//! driven by the decisions made here.

use vstd::prelude::*;
use crate::errors::CoordinatorError;

verus! {

/// The chord bound to note creation when the user has not chosen one.
pub fn default_note_chord() -> (r: String)
    ensures
        r@ == "CommandOrControl+Alt+N"@,
{
    String::from_str("CommandOrControl+Alt+N")
}

/// The mathematical state of the process-wide hotkey registrations.
pub struct HotkeyModel {
    /// Chords claimed by other registered handlers in the process.
    pub foreign: Seq<Seq<char>>,
    /// The chord currently bound to note creation, if any.
    pub note: Option<Seq<char>>,
}

/// Whether another in-process handler already claims `chord`.
pub open spec fn claimed_by_other(m: HotkeyModel, chord: Seq<char>) -> bool {
    exists|i: int| 0 <= i < m.foreign.len() && m.foreign[i] == chord
}

/// How one `bind` call changes the registrations: a conflicting chord leaves
/// the state untouched, any other chord becomes the one active binding.
pub open spec fn bind_step(m: HotkeyModel, chord: Seq<char>) -> HotkeyModel {
    if claimed_by_other(m, chord) {
        m
    } else {
        HotkeyModel { foreign: m.foreign, note: Some(chord) }
    }
}

/// How many note-creation registrations are active.
pub open spec fn active_registrations(m: HotkeyModel) -> nat {
    if m.note is Some {
        1
    } else {
        0
    }
}

/// The process-wide hotkey registrations the dispatcher works against.
pub struct HotkeyRegistry {
    /// Chords claimed by other registered handlers in the process.
    pub foreign: Vec<String>,
    /// The chord currently bound to note creation, if any.
    pub note_chord: Option<String>,
}

impl View for HotkeyRegistry {
    type V = HotkeyModel;

    open spec fn view(&self) -> HotkeyModel {
        HotkeyModel {
            foreign: self.foreign@.map_values(|s: String| s@),
            note: match self.note_chord {
                Some(s) => Some(s@),
                None => None,
            },
        }
    }
}

impl HotkeyRegistry {
    /// A fresh process: no foreign handlers, nothing bound.
    pub fn new() -> (r: HotkeyRegistry)
        ensures
            r@.foreign == Seq::<Seq<char>>::empty(),
            r@.note is None,
    {
        let r = HotkeyRegistry { foreign: Vec::new(), note_chord: None };
        proof {
            assert(r@.foreign =~= Seq::<Seq<char>>::empty());
        }
        r
    }

    /// Records that some other handler in the process has claimed `chord`.
    pub fn claim_foreign(&mut self, chord: String)
        ensures
            final(self)@.foreign == old(self)@.foreign.push(chord@),
            final(self)@.note == old(self)@.note,
    {
        self.foreign.push(chord);
        proof {
            assert(self@.foreign =~= old(self)@.foreign.push(self.foreign@.last()@));
        }
    }

    /// Binds `chord` to note creation. Any previous note-creation binding is
    /// replaced (unregister-then-register, so a repeated bind of the same
    /// chord still leaves a single registration). A chord already claimed by
    /// another in-process handler is refused and the previous binding is left
    /// intact.
    pub fn bind(&mut self, chord: String) -> (r: Result<(), CoordinatorError>)
        ensures
            final(self)@ == bind_step(old(self)@, chord@),
            r is Ok <==> !claimed_by_other(old(self)@, chord@),
            r is Err ==> r == Err::<(), CoordinatorError>(CoordinatorError::HotkeyError)
                && final(self)@ == old(self)@,
            r is Ok ==> final(self)@.note == Some(chord@) && final(self)@.foreign == old(
                self,
            )@.foreign,
    {
        let n = self.foreign.len();
        let mut i: usize = 0;
        while i < n
            invariant
                *self == *old(self),
                n == self.foreign.len(),
                i <= n,
                forall|k: int| 0 <= k < i ==> self.foreign@[k]@ != chord@,
            decreases n - i,
        {
            if self.foreign[i] == chord {
                proof {
                    assert(self@.foreign[i as int] == chord@);
                }
                return Err(CoordinatorError::HotkeyError);
            }
            i += 1;
        }
        proof {
            assert(forall|k: int|
                0 <= k < self@.foreign.len() ==> self@.foreign[k] == self.foreign@[k]@);
            assert(!claimed_by_other(self@, chord@));
        }
        self.note_chord = Some(chord);
        Ok(())
    }

    /// Removes the note-creation binding. Tolerates there being none: a
    /// second unbind is a no-op, not an error. The host also calls this when
    /// the OS refused a registration, since the previous chord was already
    /// unregistered by then.
    pub fn unbind(&mut self)
        ensures
            final(self)@.note is None,
            final(self)@.foreign == old(self)@.foreign,
    {
        self.note_chord = None;
    }
}

/// Binding the same chord twice settles in one step: the second call finds
/// the state the first produced and leaves it unchanged, so a single
/// key-press can only ever trigger one registration. When the chord is free,
/// exactly one registration is active afterwards.
pub proof fn lemma_bind_idempotent(m: HotkeyModel, chord: Seq<char>)
    ensures
        bind_step(bind_step(m, chord), chord) == bind_step(m, chord),
        !claimed_by_other(m, chord) ==> active_registrations(bind_step(m, chord)) == 1,
{
    assert(bind_step(m, chord).foreign == m.foreign);
}

} // verus!
