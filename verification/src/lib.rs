//! Core of a small interactive tone generator: note-name to frequency
//! conversion, keyboard dispatch, and the per-sample envelope/oscillator
//! state machine that an audio callback drives.
//!
//! Frequencies are carried as whole microhertz and envelope amplitudes as
//! exact fixed-point units, so every rule here is stated and proved over
//! plain integers; the surrounding program converts to floating point only
//! at the audio boundary.

pub mod control;
pub mod engine;
pub mod freq;
