//! The per-sample envelope/oscillator state machine that the audio callback
//! drives: an attack ramp while a note is requested, a three-second linear
//! release fade once the request drops to zero, and a phase accumulator that
//! wraps once per second of samples.
//!
//! The envelope amplitude is held in exact fixed-point units of
//! `1 / (AMP_SCALE * sample_rate)` of full scale, so the target level (0.5),
//! the attack step (0.01 per sample) and the release step
//! (0.5 / (RELEASE_TIME_SECONDS * sample_rate) per sample) are all whole
//! numbers of units at every sample rate, and every envelope law is exact.
//!
//! During a release the engine keeps the last nonzero requested frequency in
//! `last_freq_uhz`, so the caller that synthesizes the waveform can let the
//! fade sound at the pitch that was held rather than fall silent at once.

use vstd::prelude::*;
use vstd::math::{max, min};
use vstd::arithmetic::div_mod::{lemma_add_mod_noop_right, lemma_mod_bound};
use vstd::arithmetic::mul::{lemma_mul_inequality, lemma_mul_is_distributive_add_other_way};

verus! {

/// Fixed-point denominator factor: a stored amplitude of `u` units at sample
/// rate `sr` is the real amplitude `u / (AMP_SCALE * sr)`.
pub const AMP_SCALE: u64 = 300;

/// Seconds a full release fade lasts, from the target level down to silence.
pub const RELEASE_TIME_SECONDS: u64 = 3;

/// Units removed per release step: real amplitude 0.5 / (3 * sr), which is
/// always exactly 50 units, independent of the sample rate.
pub const RELEASE_STEP_UNITS: u64 = 50;

/// Envelope target level in units: real amplitude 0.5.
pub open spec fn spec_target_units(sample_rate: u32) -> int {
    150 * sample_rate
}

/// Envelope attack step in units: real amplitude 0.01 per sample.
pub open spec fn spec_attack_units(sample_rate: u32) -> int {
    3 * sample_rate
}

/// Private state of the real-time audio context: never shared with the
/// control thread, which only hands in the requested frequency each step.
pub struct Oscillator {
    /// Samples per second, fixed for the life of the stream; at least 1.
    pub sample_rate: u32,
    /// Position in the one-second phase cycle, in [0, sample_rate).
    pub phase: u32,
    /// Envelope level in units of `1 / (AMP_SCALE * sample_rate)`.
    pub amp_units: u64,
    /// Whether the last step saw no requested frequency.
    pub releasing: bool,
    /// Last nonzero requested frequency in microhertz, for the sine argument
    /// during a release; 0 until a note has ever been requested.
    pub last_freq_uhz: u64,
}

impl Oscillator {
    /// Well-formedness: the phase lies inside the cycle and the amplitude
    /// never exceeds the target level.
    pub open spec fn wf(self) -> bool {
        &&& 1 <= self.sample_rate
        &&& self.phase < self.sample_rate
        &&& self.amp_units <= spec_target_units(self.sample_rate)
    }

    /// The envelope level after one step under the given request: one attack
    /// step up while a note is held (clamped to the target so the last step
    /// cannot overshoot), one release step down otherwise (clamped to zero).
    pub open spec fn spec_next_amp(self, freq_uhz: u64) -> int {
        let target = spec_target_units(self.sample_rate);
        let attack = spec_attack_units(self.sample_rate);
        if freq_uhz > 0 {
            if self.amp_units < target {
                min(self.amp_units + attack, target)
            } else {
                self.amp_units as int
            }
        } else {
            max(self.amp_units - RELEASE_STEP_UNITS, 0)
        }
    }

    /// The whole state after one step: the envelope advances, the phase
    /// moves on by one modulo the sample rate, and the last nonzero request
    /// is remembered for the sine argument of a later release.
    pub open spec fn spec_step(self, freq_uhz: u64) -> Oscillator {
        Oscillator {
            sample_rate: self.sample_rate,
            phase: (((self.phase + 1) as int % self.sample_rate as int) as u32),
            amp_units: self.spec_next_amp(freq_uhz) as u64,
            releasing: freq_uhz == 0,
            last_freq_uhz: if freq_uhz > 0 {
                freq_uhz
            } else {
                self.last_freq_uhz
            },
        }
    }

    /// The state after a whole sequence of steps, one entry per sample.
    pub open spec fn spec_run(self, freqs: Seq<u64>) -> Oscillator
        decreases freqs.len(),
    {
        if freqs.len() == 0 {
            self
        } else {
            self.spec_step(freqs[0]).spec_run(freqs.drop_first())
        }
    }

    /// A fresh engine for a stream: silent, at phase zero, not releasing.
    pub fn new(sample_rate: u32) -> (osc: Oscillator)
        requires
            1 <= sample_rate,
        ensures
            osc == (Oscillator {
                sample_rate,
                phase: 0,
                amp_units: 0,
                releasing: false,
                last_freq_uhz: 0,
            }),
            osc.wf(),
    {
        Oscillator { sample_rate, phase: 0, amp_units: 0, releasing: false, last_freq_uhz: 0 }
    }

    /// Advances the engine by one sample under the currently requested
    /// frequency in microhertz (0 meaning no note is requested).
    pub fn step(&mut self, freq_uhz: u64)
        requires
            old(self).wf(),
        ensures
            *final(self) == old(self).spec_step(freq_uhz),
            final(self).wf(),
    {
        let target: u64 = 150 * (self.sample_rate as u64);
        let attack: u64 = 3 * (self.sample_rate as u64);
        if freq_uhz > 0 {
            self.releasing = false;
            if self.amp_units < target {
                let raised: u64 = self.amp_units + attack;
                self.amp_units = if raised <= target {
                    raised
                } else {
                    target
                };
            }
            self.last_freq_uhz = freq_uhz;
        } else {
            self.releasing = true;
            if self.amp_units >= RELEASE_STEP_UNITS {
                self.amp_units = self.amp_units - RELEASE_STEP_UNITS;
            } else {
                self.amp_units = 0;
            }
        }
        self.phase = (self.phase + 1) % self.sample_rate;
        proof {
            lemma_mod_bound((old(self).phase + 1) as int, self.sample_rate as int);
        }
    }
}

/// Law: one step keeps the state well formed; in particular the amplitude
/// never leaves [0, target] and the sample rate never changes.
pub proof fn lemma_step_wf(s: Oscillator, freq_uhz: u64)
    requires
        s.wf(),
    ensures
        s.spec_step(freq_uhz).wf(),
        s.spec_step(freq_uhz).sample_rate == s.sample_rate,
{
    lemma_mod_bound((s.phase + 1) as int, s.sample_rate as int);
}

/// Law: whatever sequence of note-on/note-off requests drives the engine,
/// and however long it runs, the amplitude never leaves [0, target].
pub proof fn lemma_amp_never_leaves_range(s: Oscillator, freqs: Seq<u64>)
    requires
        s.wf(),
    ensures
        s.spec_run(freqs).wf(),
        s.spec_run(freqs).sample_rate == s.sample_rate,
        0 <= s.spec_run(freqs).amp_units <= spec_target_units(s.sample_rate),
    decreases freqs.len(),
{
    if freqs.len() > 0 {
        lemma_step_wf(s, freqs[0]);
        lemma_amp_never_leaves_range(s.spec_step(freqs[0]), freqs.drop_first());
    }
}

/// Law: while a note is held, the amplitude strictly increases each step
/// until it reaches the target level, and once there it stays exactly there.
pub proof fn lemma_attack_monotone(s: Oscillator, freq_uhz: u64)
    requires
        s.wf(),
        freq_uhz > 0,
    ensures
        s.amp_units < spec_target_units(s.sample_rate) ==> s.amp_units
            < s.spec_step(freq_uhz).amp_units <= spec_target_units(s.sample_rate),
        s.amp_units == spec_target_units(s.sample_rate) ==> s.spec_step(freq_uhz).amp_units
            == spec_target_units(s.sample_rate),
{
}

/// Law: holding a note for `n` steps raises the amplitude to exactly
/// `min(start + n * attackStep, target)`; from silence the target level is
/// reached after exactly 50 steps and is never exceeded.
pub proof fn lemma_held_amp(s: Oscillator, freq_uhz: u64, n: nat)
    requires
        s.wf(),
        freq_uhz > 0,
    ensures
        s.spec_run(Seq::new(n, |i: int| freq_uhz)).amp_units == min(
            s.amp_units + n * spec_attack_units(s.sample_rate),
            spec_target_units(s.sample_rate),
        ),
    decreases n,
{
    let target = spec_target_units(s.sample_rate);
    let attack = spec_attack_units(s.sample_rate);
    let freqs = Seq::new(n, |i: int| freq_uhz);
    if n == 0 {
    } else {
        let s1 = s.spec_step(freq_uhz);
        lemma_step_wf(s, freq_uhz);
        assert(freqs.drop_first() =~= Seq::new((n - 1) as nat, |i: int| freq_uhz));
        lemma_held_amp(s1, freq_uhz, (n - 1) as nat);
        lemma_mul_is_distributive_add_other_way(attack, (n - 1) as int, 1);
    }
}

/// Law: with no note requested, the amplitude falls by exactly one release
/// step per sample, floored at zero: after `n` silent steps it is exactly
/// `max(start - n * releaseStep, 0)`.
pub proof fn lemma_release_amp(s: Oscillator, n: nat)
    requires
        s.wf(),
    ensures
        s.spec_run(Seq::new(n, |i: int| 0u64)).amp_units == max(
            s.amp_units - n * RELEASE_STEP_UNITS,
            0,
        ),
    decreases n,
{
    let freqs = Seq::new(n, |i: int| 0u64);
    if n == 0 {
    } else {
        let s1 = s.spec_step(0u64);
        lemma_step_wf(s, 0u64);
        assert(freqs.drop_first() =~= Seq::new((n - 1) as nat, |i: int| 0u64));
        lemma_release_amp(s1, (n - 1) as nat);
        lemma_mul_is_distributive_add_other_way(RELEASE_STEP_UNITS as int, (n - 1) as int, 1);
    }
}

/// Law: after a release, the amplitude is exactly zero within
/// `releaseTimeSeconds * sampleRate` silent steps — the whole fade lasts
/// three seconds at any sample rate — and it stays at zero thereafter.
pub proof fn lemma_release_reaches_zero(s: Oscillator, n: nat)
    requires
        s.wf(),
        n >= RELEASE_TIME_SECONDS * s.sample_rate,
    ensures
        s.spec_run(Seq::new(n, |i: int| 0u64)).amp_units == 0,
{
    lemma_release_amp(s, n);
    assert(RELEASE_TIME_SECONDS * s.sample_rate * RELEASE_STEP_UNITS
        == spec_target_units(s.sample_rate)) by (nonlinear_arith);
    lemma_mul_inequality(
        (RELEASE_TIME_SECONDS * s.sample_rate) as int,
        n as int,
        RELEASE_STEP_UNITS as int,
    );
}

/// Law: the phase advances by exactly one per step, modulo the sample rate,
/// whatever frequencies are requested along the way.
pub proof fn lemma_phase_advance(s: Oscillator, freqs: Seq<u64>)
    requires
        s.wf(),
    ensures
        s.spec_run(freqs).phase == (s.phase + freqs.len()) % (s.sample_rate as int),
    decreases freqs.len(),
{
    if freqs.len() == 0 {
        lemma_mod_bound(s.phase as int, s.sample_rate as int);
        vstd::arithmetic::div_mod::lemma_small_mod(s.phase as nat, s.sample_rate as nat);
    } else {
        let s1 = s.spec_step(freqs[0]);
        lemma_step_wf(s, freqs[0]);
        lemma_mod_bound((s.phase + 1) as int, s.sample_rate as int);
        assert(s1.phase as int == (s.phase + 1) % (s.sample_rate as int));
        lemma_phase_advance(s1, freqs.drop_first());
        lemma_add_mod_noop_right(
            (freqs.len() - 1) as int,
            (s.phase + 1) as int,
            s.sample_rate as int,
        );
    }
}

/// Law: after exactly `sampleRate` steps of continuous play the phase
/// returns to its starting value.
pub proof fn lemma_phase_wraps(s: Oscillator, freqs: Seq<u64>)
    requires
        s.wf(),
        freqs.len() == s.sample_rate,
    ensures
        s.spec_run(freqs).phase == s.phase,
{
    lemma_phase_advance(s, freqs);
    vstd::arithmetic::div_mod::lemma_mod_add_multiples_vanish(
        s.phase as int,
        s.sample_rate as int,
    );
    vstd::arithmetic::div_mod::lemma_small_mod(s.phase as nat, s.sample_rate as nat);
}

} // verus!
