//! Tests of the note table and the equal-tempered frequency calculator.

use tonegen::freq::{midi_to_freq, note_to_frequency, pitch_class};

#[test]
fn note_a4_is_exactly_440_hz() {
    assert_eq!(note_to_frequency("A", 4), 440_000_000);
    assert_eq!(note_to_frequency("A", 4) as f64 / 1e6, 440.0);
}

#[test]
fn note_a3_is_exactly_220_hz() {
    assert_eq!(note_to_frequency("A", 3), 220_000_000);
    assert_eq!(note_to_frequency("A", 3) as f64 / 1e6, 220.0);
}

#[test]
fn note_c4_is_middle_c() {
    let hz = note_to_frequency("C", 4) as f64 / 1e6;
    assert!((hz - 261.63).abs() < 0.01);
}

#[test]
fn midi_note_69_is_concert_pitch() {
    assert_eq!(midi_to_freq(69), 440_000_000);
}

#[test]
fn midi_note_57_is_a3() {
    assert_eq!(midi_to_freq(57), 220_000_000);
}

#[test]
fn pitch_classes_cover_the_twelve_semitones() {
    assert_eq!(pitch_class("C"), 0);
    assert_eq!(pitch_class("C#"), 1);
    assert_eq!(pitch_class("D"), 2);
    assert_eq!(pitch_class("D#"), 3);
    assert_eq!(pitch_class("E"), 4);
    assert_eq!(pitch_class("F"), 5);
    assert_eq!(pitch_class("F#"), 6);
    assert_eq!(pitch_class("G"), 7);
    assert_eq!(pitch_class("G#"), 8);
    assert_eq!(pitch_class("A"), 9);
    assert_eq!(pitch_class("A#"), 10);
    assert_eq!(pitch_class("B"), 11);
}

#[test]
fn unknown_note_name_falls_back_to_c() {
    assert_eq!(pitch_class("Q"), 0);
    assert_eq!(pitch_class("E#"), 0);
    assert_eq!(pitch_class(""), 0);
    assert_eq!(pitch_class("C##"), 0);
    assert_eq!(note_to_frequency("Q", 4), note_to_frequency("C", 4));
}

#[test]
fn frequencies_double_each_octave() {
    for octave in 0..8 {
        assert_eq!(
            note_to_frequency("E", octave + 1),
            2 * note_to_frequency("E", octave)
        );
        assert_eq!(
            note_to_frequency("G#", octave + 1),
            2 * note_to_frequency("G#", octave)
        );
    }
}

#[test]
fn every_note_lies_between_its_neighbours() {
    let names = ["C", "C#", "D", "D#", "E", "F", "F#", "G", "G#", "A", "A#", "B"];
    for w in names.windows(2) {
        assert!(note_to_frequency(w[0], 4) < note_to_frequency(w[1], 4));
    }
}
