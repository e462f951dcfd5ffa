//! Note names, MIDI-note arithmetic, and equal-tempered frequencies.
//!
//! A frequency is carried as a whole number of microhertz. The twelve
//! equal-tempered pitches of the lowest MIDI octave are tabulated to the
//! nearest microhertz; every higher note is an exact power-of-two multiple
//! of its table entry, so the notes named "A" come out exact
//! (A4 = 440_000_000 microhertz) and every other note is within one
//! microhertz times its octave factor of the ideal value.

use vstd::prelude::*;
use vstd::arithmetic::power2::{
    pow2, lemma2_to64, lemma2_to64_rest, lemma_pow2_adds, lemma_pow2_strictly_increases,
};
use vstd::arithmetic::mul::{lemma_mul_inequality, lemma_mul_left_inequality};

verus! {

/// Largest MIDI note number the calculator accepts: the microhertz value of
/// anything above this would no longer fit in a `u64`.
pub const MAX_MIDI_NOTE: i32 = 479;

/// Pitch class of a note name: C = 0 .. B = 11; an unknown name maps to C.
pub open spec fn spec_pitch_class(name: Seq<char>) -> int {
    if name.len() == 1 {
        if name[0] == 'C' {
            0
        } else if name[0] == 'D' {
            2
        } else if name[0] == 'E' {
            4
        } else if name[0] == 'F' {
            5
        } else if name[0] == 'G' {
            7
        } else if name[0] == 'A' {
            9
        } else if name[0] == 'B' {
            11
        } else {
            0
        }
    } else if name.len() == 2 && name[1] == '#' {
        if name[0] == 'C' {
            1
        } else if name[0] == 'D' {
            3
        } else if name[0] == 'F' {
            6
        } else if name[0] == 'G' {
            8
        } else if name[0] == 'A' {
            10
        } else {
            0
        }
    } else {
        0
    }
}

/// Looks a note name up in the twelve-entry note table; an unknown name
/// silently maps to pitch class 0 (the note C), by design and not an error.
pub fn pitch_class(name: &str) -> (pc: u32)
    ensures
        pc == spec_pitch_class(name@),
        pc < 12,
{
    let len: usize = name.unicode_len();
    if len == 1 {
        let c = name.get_char(0);
        if c == 'C' {
            0
        } else if c == 'D' {
            2
        } else if c == 'E' {
            4
        } else if c == 'F' {
            5
        } else if c == 'G' {
            7
        } else if c == 'A' {
            9
        } else if c == 'B' {
            11
        } else {
            0
        }
    } else if len == 2 {
        let c0 = name.get_char(0);
        let c1 = name.get_char(1);
        if c1 == '#' {
            if c0 == 'C' {
                1
            } else if c0 == 'D' {
                3
            } else if c0 == 'F' {
                6
            } else if c0 == 'G' {
                8
            } else if c0 == 'A' {
                10
            } else {
                0
            }
        } else {
            0
        }
    } else {
        0
    }
}

/// Frequency, in microhertz, of each pitch class in the lowest MIDI octave
/// (MIDI notes 0 through 11), rounded to the nearest microhertz.
/// Entry 9 (the note A) is exact: 13.75 Hz, five octaves below A4 = 440 Hz.
pub open spec fn spec_base_uhz(pc: int) -> int {
    if pc == 0 {
        8175799
    } else if pc == 1 {
        8661957
    } else if pc == 2 {
        9177024
    } else if pc == 3 {
        9722718
    } else if pc == 4 {
        10300861
    } else if pc == 5 {
        10913382
    } else if pc == 6 {
        11562326
    } else if pc == 7 {
        12249857
    } else if pc == 8 {
        12978272
    } else if pc == 9 {
        13750000
    } else if pc == 10 {
        14567618
    } else {
        15433853
    }
}

/// Equal-tempered frequency in microhertz of a MIDI note: the tabulated
/// base-octave frequency of its pitch class, doubled once per octave.
pub open spec fn spec_midi_to_freq_uhz(midi_note: int) -> int {
    spec_base_uhz(midi_note % 12) * pow2((midi_note / 12) as nat)
}

fn base_uhz(pc: u32) -> (r: u64)
    requires
        pc < 12,
    ensures
        r == spec_base_uhz(pc as int),
{
    if pc == 0 {
        8175799
    } else if pc == 1 {
        8661957
    } else if pc == 2 {
        9177024
    } else if pc == 3 {
        9722718
    } else if pc == 4 {
        10300861
    } else if pc == 5 {
        10913382
    } else if pc == 6 {
        11562326
    } else if pc == 7 {
        12249857
    } else if pc == 8 {
        12978272
    } else if pc == 9 {
        13750000
    } else if pc == 10 {
        14567618
    } else {
        15433853
    }
}

proof fn lemma_base_uhz_bounds(pc: int)
    ensures
        0 < spec_base_uhz(pc) <= 15433853,
{
}

/// Converts a MIDI note number to its equal-tempered frequency in
/// microhertz (A4 = MIDI note 69 = 440_000_000 microhertz exactly).
pub fn midi_to_freq(midi_note: i32) -> (r: u64)
    requires
        0 <= midi_note <= MAX_MIDI_NOTE,
    ensures
        r == spec_midi_to_freq_uhz(midi_note as int),
{
    let m: u32 = midi_note as u32;
    let q: u32 = m / 12;
    let pc: u32 = m % 12;
    let base: u64 = base_uhz(pc);
    proof {
        lemma_base_uhz_bounds(pc as int);
        lemma2_to64();
        lemma2_to64_rest();
    }
    let mut f: u64 = base;
    let mut i: u32 = 0;
    while i < q
        invariant
            i <= q,
            q <= 39,
            base == spec_base_uhz(m as int % 12),
            0 < base <= 15433853,
            f == base * pow2(i as nat),
        decreases q - i,
    {
        proof {
            if ((i + 1) as nat) < 39 {
                lemma_pow2_strictly_increases((i + 1) as nat, 39);
            }
            lemma_pow2_adds(i as nat, 1);
            lemma2_to64();
            lemma2_to64_rest();
            lemma_mul_inequality(pow2((i + 1) as nat) as int, pow2(39) as int, base as int);
            lemma_mul_left_inequality(base as int, pow2((i + 1) as nat) as int, pow2(39) as int);
            assert(base * pow2((i + 1) as nat) <= 15433853 * pow2(39)) by {
                lemma_mul_inequality(base as int, 15433853, pow2(39) as int);
            }
        }
        f = f * 2;
        i = i + 1;
    }
    f
}

/// Octave-name-to-frequency conversion: the note name selects a pitch class
/// (an unknown name falls back to C), the MIDI note number is
/// `12 * (octave + 1) + pitchClass`, and the frequency follows from the
/// equal-tempered table. No clamping is applied to the octave here; the
/// bound keeps the MIDI note inside the range the calculator accepts.
pub open spec fn spec_note_to_freq_uhz(name: Seq<char>, octave: int) -> int {
    spec_midi_to_freq_uhz(12 * (octave + 1) + spec_pitch_class(name))
}

/// Frequency in microhertz of a named note in a given octave.
pub fn note_to_frequency(note: &str, octave: i32) -> (r: u64)
    requires
        -1 <= octave <= 38,
    ensures
        r == spec_note_to_freq_uhz(note@, octave as int),
{
    let pc: u32 = pitch_class(note);
    let midi_note: i32 = 12 * (octave + 1) + pc as i32;
    midi_to_freq(midi_note)
}

/// Law: moving a note up one octave exactly doubles its frequency.
pub proof fn lemma_octave_doubles(midi_note: int)
    requires
        0 <= midi_note,
    ensures
        spec_midi_to_freq_uhz(midi_note + 12) == 2 * spec_midi_to_freq_uhz(midi_note),
{
    let q = (midi_note / 12) as nat;
    assert((midi_note + 12) % 12 == midi_note % 12);
    assert((midi_note + 12) / 12 == midi_note / 12 + 1);
    lemma_pow2_adds(q, 1);
    lemma2_to64();
    assert(spec_base_uhz(midi_note % 12) * pow2(q + 1)
        == 2 * (spec_base_uhz(midi_note % 12) * pow2(q))) by {
        vstd::arithmetic::mul::lemma_mul_is_associative(
            spec_base_uhz(midi_note % 12),
            pow2(q) as int,
            2,
        );
    }
}

} // verus!
