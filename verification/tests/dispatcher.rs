//! Tests of the key mapping and the input dispatcher.

use tonegen::control::{KeyPress, PlaybackState, INITIAL_OCTAVE, MAX_OCTAVE, MIN_OCTAVE};
use tonegen::freq::note_to_frequency;

#[test]
fn session_starts_silent_in_octave_three() {
    let s = PlaybackState::new();
    assert_eq!(s.current_octave, INITIAL_OCTAVE);
    assert_eq!(s.current_octave, 3);
    assert_eq!(s.requested_freq_uhz, 0);
}

#[test]
fn octave_up_is_idempotent_at_the_top() {
    let mut s = PlaybackState::new();
    for _ in 0..20 {
        assert!(!s.on_key_event(KeyPress::Char('x')));
        assert!(s.current_octave <= MAX_OCTAVE);
    }
    assert_eq!(s.current_octave, MAX_OCTAVE);
    s.on_key_event(KeyPress::Char('x'));
    assert_eq!(s.current_octave, MAX_OCTAVE);
}

#[test]
fn octave_down_is_idempotent_at_the_bottom() {
    let mut s = PlaybackState::new();
    for _ in 0..20 {
        assert!(!s.on_key_event(KeyPress::Char('z')));
        assert!(s.current_octave >= MIN_OCTAVE);
    }
    assert_eq!(s.current_octave, MIN_OCTAVE);
    s.on_key_event(KeyPress::Char('z'));
    assert_eq!(s.current_octave, MIN_OCTAVE);
}

#[test]
fn note_key_requests_that_note_in_the_current_octave() {
    let mut s = PlaybackState::new();
    s.on_key_event(KeyPress::Char('h'));
    assert_eq!(s.requested_freq_uhz, 220_000_000);
    s.on_key_event(KeyPress::Char('a'));
    assert_eq!(s.requested_freq_uhz, note_to_frequency("C", 3));
    s.on_key_event(KeyPress::Char('j'));
    assert_eq!(s.requested_freq_uhz, note_to_frequency("B", 3));
}

#[test]
fn next_octave_keys_reach_one_octave_up() {
    let mut s = PlaybackState::new();
    s.on_key_event(KeyPress::Char('k'));
    assert_eq!(s.requested_freq_uhz, note_to_frequency("C", 4));
    s.on_key_event(KeyPress::Char('o'));
    assert_eq!(s.requested_freq_uhz, note_to_frequency("C#", 4));
    s.on_key_event(KeyPress::Char('l'));
    assert_eq!(s.requested_freq_uhz, note_to_frequency("D", 4));
}

#[test]
fn octave_shift_changes_the_next_note() {
    let mut s = PlaybackState::new();
    s.on_key_event(KeyPress::Char('x'));
    s.on_key_event(KeyPress::Char('h'));
    assert_eq!(s.requested_freq_uhz, 440_000_000);
    s.on_key_event(KeyPress::Char('z'));
    s.on_key_event(KeyPress::Char('z'));
    s.on_key_event(KeyPress::Char('h'));
    assert_eq!(s.requested_freq_uhz, 110_000_000);
}

#[test]
fn space_requests_silence() {
    let mut s = PlaybackState::new();
    s.on_key_event(KeyPress::Char('h'));
    assert!(s.requested_freq_uhz > 0);
    assert!(!s.on_key_event(KeyPress::Char(' ')));
    assert_eq!(s.requested_freq_uhz, 0);
}

#[test]
fn escape_quits_and_changes_nothing_else() {
    let mut s = PlaybackState::new();
    s.on_key_event(KeyPress::Char('h'));
    let before_octave = s.current_octave;
    let before_freq = s.requested_freq_uhz;
    assert!(s.on_key_event(KeyPress::Esc));
    assert_eq!(s.current_octave, before_octave);
    assert_eq!(s.requested_freq_uhz, before_freq);
}

#[test]
fn unmapped_keys_are_ignored() {
    let mut s = PlaybackState::new();
    s.on_key_event(KeyPress::Char('h'));
    let before_freq = s.requested_freq_uhz;
    assert!(!s.on_key_event(KeyPress::Char('q')));
    assert!(!s.on_key_event(KeyPress::Char('9')));
    assert!(!s.on_key_event(KeyPress::Other));
    assert_eq!(s.requested_freq_uhz, before_freq);
    assert_eq!(s.current_octave, 3);
}

#[test]
fn note_keys_cover_a_full_chromatic_octave() {
    let keys = [
        ('a', "C", 0),
        ('w', "C#", 0),
        ('s', "D", 0),
        ('e', "D#", 0),
        ('d', "E", 0),
        ('f', "F", 0),
        ('t', "F#", 0),
        ('g', "G", 0),
        ('y', "G#", 0),
        ('h', "A", 0),
        ('u', "A#", 0),
        ('j', "B", 0),
        ('k', "C", 1),
        ('o', "C#", 1),
        ('l', "D", 1),
    ];
    for (key, name, offset) in keys {
        let mut s = PlaybackState::new();
        s.on_key_event(KeyPress::Char(key));
        assert_eq!(s.requested_freq_uhz, note_to_frequency(name, 3 + offset));
    }
}
