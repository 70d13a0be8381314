//! Core of a keyboard-driven sample player: maps computer-keyboard keys to
//! the twelve chromatic notes, tracks which notes are visually active, cycles
//! through a bank of loaded instruments, and turns each key event into at
//! most one pitch-shifted playback command.
//!
//! Terminal rendering, audio decoding and output, and the timer task that
//! clears a note's highlight after a fixed delay are thin collaborators
//! around this crate; they consume plain values produced here.

pub mod app;
pub mod notes;
pub mod tracker;

use vstd::prelude::*;

verus! {

/// Number of notes in the chromatic scale; every per-note table has exactly
/// this many entries.
pub const NOTE_COUNT: usize = 12;

} // verus!
