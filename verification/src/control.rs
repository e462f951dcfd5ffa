//! The key mapping and input dispatcher: the state owned by the control
//! thread and the transition it makes for each discrete key press.
//!
//! The dispatcher owns the current octave, clamped to [0, 8], and the
//! requested frequency in microhertz, 0 meaning no note is requested. A note
//! key retargets the frequency ("last key wins" — there is no key-release
//! tracking), the space key forces silence and so starts the release fade,
//! and the octave keys shift the octave, silently clamped at the bounds.

use vstd::prelude::*;
use crate::freq::{note_to_frequency, spec_note_to_freq_uhz};

verus! {

/// The note that a key press selects: its note name and the offset, 0 or 1,
/// added to the current octave ('k', 'o' and 'l' reach into the next
/// octave). A key that selects no note maps to `None`.
pub open spec fn spec_key_note(c: char) -> Option<(Seq<char>, int)> {
    if c == 'a' {
        Some(("C"@, 0int))
    } else if c == 'w' {
        Some(("C#"@, 0int))
    } else if c == 's' {
        Some(("D"@, 0int))
    } else if c == 'e' {
        Some(("D#"@, 0int))
    } else if c == 'd' {
        Some(("E"@, 0int))
    } else if c == 'f' {
        Some(("F"@, 0int))
    } else if c == 't' {
        Some(("F#"@, 0int))
    } else if c == 'g' {
        Some(("G"@, 0int))
    } else if c == 'y' {
        Some(("G#"@, 0int))
    } else if c == 'h' {
        Some(("A"@, 0int))
    } else if c == 'u' {
        Some(("A#"@, 0int))
    } else if c == 'j' {
        Some(("B"@, 0int))
    } else if c == 'k' {
        Some(("C"@, 1int))
    } else if c == 'o' {
        Some(("C#"@, 1int))
    } else if c == 'l' {
        Some(("D"@, 1int))
    } else {
        None
    }
}

/// Looks a character up in the key map.
pub fn key_to_note(c: char) -> (r: Option<(&'static str, i32)>)
    ensures
        r is Some <==> spec_key_note(c) is Some,
        r matches Some((name, octave_offset)) ==> spec_key_note(c) == Some(
            (name@, octave_offset as int),
        ) && 0 <= octave_offset <= 1,
{
    if c == 'a' {
        Some(("C", 0))
    } else if c == 'w' {
        Some(("C#", 0))
    } else if c == 's' {
        Some(("D", 0))
    } else if c == 'e' {
        Some(("D#", 0))
    } else if c == 'd' {
        Some(("E", 0))
    } else if c == 'f' {
        Some(("F", 0))
    } else if c == 't' {
        Some(("F#", 0))
    } else if c == 'g' {
        Some(("G", 0))
    } else if c == 'y' {
        Some(("G#", 0))
    } else if c == 'h' {
        Some(("A", 0))
    } else if c == 'u' {
        Some(("A#", 0))
    } else if c == 'j' {
        Some(("B", 0))
    } else if c == 'k' {
        Some(("C", 1))
    } else if c == 'o' {
        Some(("C#", 1))
    } else if c == 'l' {
        Some(("D", 1))
    } else {
        None
    }
}

/// Lowest octave the dispatcher will go down to.
pub const MIN_OCTAVE: i32 = 0;

/// Highest octave the dispatcher will go up to.
pub const MAX_OCTAVE: i32 = 8;

/// Octave the dispatcher starts in.
pub const INITIAL_OCTAVE: i32 = 3;

/// A discrete key press, as the control loop hands it in: a printable
/// character, the escape key, or any other key (ignored).
pub enum KeyPress {
    Char(char),
    Esc,
    Other,
}

/// State owned by the input dispatcher. `requested_freq_uhz` is the one
/// value shared with the audio context; the program around the library
/// publishes it after every transition.
pub struct PlaybackState {
    /// Current octave, always within [MIN_OCTAVE, MAX_OCTAVE].
    pub current_octave: i32,
    /// Requested frequency in microhertz; 0 means silence is requested.
    pub requested_freq_uhz: u64,
}

impl PlaybackState {
    /// Well-formedness: the octave stays within its bounds.
    pub open spec fn wf(self) -> bool {
        MIN_OCTAVE <= self.current_octave <= MAX_OCTAVE
    }

    /// The dispatcher state a session starts in: octave 3, silent.
    pub fn new() -> (s: PlaybackState)
        ensures
            s == (PlaybackState { current_octave: INITIAL_OCTAVE, requested_freq_uhz: 0 }),
            s.wf(),
    {
        PlaybackState { current_octave: INITIAL_OCTAVE, requested_freq_uhz: 0 }
    }

    /// The state after one key press: space requests silence, 'z' and 'x'
    /// shift the octave down and up with silent clamping at the bounds, a
    /// mapped note key requests that note's frequency in the current octave
    /// (plus the key's octave offset), and anything else changes nothing.
    pub open spec fn spec_on_key(self, key: KeyPress) -> PlaybackState {
        match key {
            KeyPress::Char(c) => if c == ' ' {
                PlaybackState { requested_freq_uhz: 0, ..self }
            } else if c == 'z' {
                PlaybackState {
                    current_octave: if self.current_octave > MIN_OCTAVE {
                        (self.current_octave - 1) as i32
                    } else {
                        self.current_octave
                    },
                    ..self
                }
            } else if c == 'x' {
                PlaybackState {
                    current_octave: if self.current_octave < MAX_OCTAVE {
                        (self.current_octave + 1) as i32
                    } else {
                        self.current_octave
                    },
                    ..self
                }
            } else {
                match spec_key_note(c) {
                    Some((name, octave_offset)) => PlaybackState {
                        requested_freq_uhz: spec_note_to_freq_uhz(
                            name,
                            self.current_octave + octave_offset,
                        ) as u64,
                        ..self
                    },
                    None => self,
                }
            },
            KeyPress::Esc => self,
            KeyPress::Other => self,
        }
    }

    /// Handles one discrete key press; returns whether the session should
    /// end (only the escape key ends it).
    pub fn on_key_event(&mut self, key: KeyPress) -> (quit: bool)
        requires
            old(self).wf(),
        ensures
            *final(self) == old(self).spec_on_key(key),
            final(self).wf(),
            quit == (key is Esc),
    {
        match key {
            KeyPress::Char(c) => {
                if c == ' ' {
                    self.requested_freq_uhz = 0;
                } else if c == 'z' {
                    if self.current_octave > MIN_OCTAVE {
                        self.current_octave = self.current_octave - 1;
                    }
                } else if c == 'x' {
                    if self.current_octave < MAX_OCTAVE {
                        self.current_octave = self.current_octave + 1;
                    }
                } else {
                    match key_to_note(c) {
                        Some((name, octave_offset)) => {
                            let f: u64 = note_to_frequency(
                                name,
                                self.current_octave + octave_offset,
                            );
                            self.requested_freq_uhz = f;
                        },
                        None => {},
                    }
                }
                false
            },
            KeyPress::Esc => true,
            KeyPress::Other => false,
        }
    }
}

/// Law: octave navigation is idempotent at the bounds — from the highest
/// octave, octave-up leaves it there; from the lowest, octave-down does.
pub proof fn lemma_octave_clamped_at_bounds(s: PlaybackState)
    requires
        s.wf(),
    ensures
        s.current_octave == MAX_OCTAVE ==> s.spec_on_key(KeyPress::Char('x')).current_octave
            == MAX_OCTAVE,
        s.current_octave == MIN_OCTAVE ==> s.spec_on_key(KeyPress::Char('z')).current_octave
            == MIN_OCTAVE,
{
}

} // verus!
