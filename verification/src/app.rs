//! The instrument bank and the trigger engine: the single entry point that
//! turns one discrete input event into zero or one playback command plus
//! bank navigation.
//!
//! An input-polling collaborator delivers events; an audio-output
//! collaborator performs the playback commands produced here and schedules
//! each note's deferred release.

use vstd::prelude::*;

verus! {

use crate::notes::{Note, Ratio, note_of, ratio_of, spec_note_of, spec_ratio_of};
use crate::tracker::{NoteActivity, Mark, mark};

/// One loaded instrument, identified by position in the bank. The decoded
/// sample buffer itself lives with the audio collaborator, which keeps its
/// copies in the same order as the bank.
pub struct Instrument {
    pub name: String,
}

/// The cursor position after one "next instrument" command: one step
/// forward, wrapping past the end of the bank.
pub open spec fn advance_cursor(c: int, len: int) -> int {
    if c + 1 == len {
        0
    } else {
        c + 1
    }
}

/// The cursor position after one "previous instrument" command: one step
/// back, wrapping past the start of the bank.
pub open spec fn retreat_cursor(c: int, len: int) -> int {
    if c == 0 {
        len - 1
    } else {
        c - 1
    }
}

/// The cursor position after `k` "next instrument" commands in a row.
pub open spec fn advance_n(c: int, len: int, k: nat) -> int
    decreases k,
{
    if k == 0 {
        c
    } else {
        advance_cursor(advance_n(c, len, (k - 1) as nat), len)
    }
}

/// Advancing stays within the bank, and lands exactly `k` positions
/// forward, minus one full wrap where that runs past the end.
pub proof fn lemma_advance_n_value(c: int, len: int, k: nat)
    requires
        0 <= c < len,
        k <= len,
    ensures
        advance_n(c, len, k) == if c + k < len { c + k } else { c + k - len },
    decreases k,
{
    if k > 0 {
        lemma_advance_n_value(c, len, (k - 1) as nat);
    }
}

/// Cyclic-group property: composing "next instrument" as many times as the
/// bank has instruments returns the cursor to its original value.
pub proof fn lemma_advance_full_cycle(c: int, len: int)
    requires
        0 <= c < len,
    ensures
        advance_n(c, len, len as nat) == c,
{
    lemma_advance_n_value(c, len, len as nat);
}

/// "Previous instrument" is the exact inverse of "next instrument", in
/// either order of composition.
pub proof fn lemma_retreat_inverts_advance(c: int, len: int)
    requires
        0 <= c < len,
    ensures
        retreat_cursor(advance_cursor(c, len), len) == c,
        advance_cursor(retreat_cursor(c, len), len) == c,
{
}

/// In a bank with a single instrument, both navigation commands are no-ops:
/// the cursor stays at its only legal position.
pub proof fn lemma_single_instrument_no_op(c: int)
    requires
        0 <= c < 1,
    ensures
        advance_cursor(c, 1) == c,
        retreat_cursor(c, 1) == c,
{
}

/// One discrete event from the input collaborator.
#[derive(Clone, Copy, PartialEq, Eq, Structural, Debug)]
pub enum InputEvent {
    /// Terminate the run loop.
    Quit,
    /// Select the next instrument.
    NextInstrument,
    /// Select the previous instrument.
    PrevInstrument,
    /// A character key was pressed.
    Char(char),
}

/// A playback command: play the sample of the instrument at
/// `instrument_index`, rate-adjusted by `ratio`, for `note`.
#[derive(Clone, Copy, PartialEq, Eq, Structural, Debug)]
pub struct PlayCommand {
    pub instrument_index: usize,
    pub note: Note,
    pub ratio: Ratio,
}

/// What the run loop must do after one event: stop, nothing, or submit one
/// asynchronous playback and schedule the played note's deferred release.
#[derive(Clone, Copy, PartialEq, Eq, Structural, Debug)]
pub enum Action {
    /// Leave the run loop.
    Exit,
    /// No playback: navigation, an unbound key, or no key at all.
    Ignore,
    /// Submit this playback and schedule the note's deferred release.
    Play(PlayCommand),
}

/// The player's core state: the ordered instrument bank with its cursor,
/// and the per-note activity flags.
pub struct App {
    pub instruments: Vec<Instrument>,
    pub current_instrument_index: usize,
    pub notes_pressed: NoteActivity,
}

impl App {
    /// Invariant: the bank is never empty, the cursor always selects an
    /// instrument, and the tracker has a flag for every note.
    pub open spec fn wf(self) -> bool {
        &&& self.instruments@.len() >= 1
        &&& self.current_instrument_index < self.instruments@.len()
        &&& self.notes_pressed.wf()
    }

    /// Build the player state over a non-empty bank: cursor on the first
    /// instrument, every note inactive. An empty bank is a fatal startup
    /// condition and is excluded outright.
    pub fn new(instruments: Vec<Instrument>) -> (app: App)
        requires
            instruments@.len() >= 1,
        ensures
            app.wf(),
            app.instruments == instruments,
            app.current_instrument_index == 0,
            forall|n: Note| !app.notes_pressed.spec_is_active(n),
    {
        App {
            instruments,
            current_instrument_index: 0,
            notes_pressed: NoteActivity::new(),
        }
    }

    /// Runtime mirror of `wf`, so an unverified caller can check the
    /// invariant before relying on it.
    pub fn is_wf(&self) -> (r: bool)
        ensures
            r == self.wf(),
    {
        self.instruments.len() >= 1
            && self.current_instrument_index < self.instruments.len()
            && self.notes_pressed.flag_count() == crate::NOTE_COUNT
    }

    /// The instrument under the cursor. Total on well-formed state: the
    /// bank is guaranteed non-empty.
    pub fn current(&self) -> (r: &Instrument)
        requires
            self.wf(),
        ensures
            *r == self.instruments@[self.current_instrument_index as int],
    {
        &self.instruments[self.current_instrument_index]
    }

    /// Move the cursor one instrument forward, wrapping modulo the bank
    /// length. Nothing else changes.
    pub fn next_instrument(&mut self)
        requires
            old(self).wf(),
        ensures
            final(self).wf(),
            final(self).current_instrument_index
                == advance_cursor(old(self).current_instrument_index as int, old(self).instruments@.len() as int),
            final(self).instruments == old(self).instruments,
            final(self).notes_pressed == old(self).notes_pressed,
    {
        let len = self.instruments.len();
        if self.current_instrument_index + 1 == len {
            self.current_instrument_index = 0;
        } else {
            self.current_instrument_index = self.current_instrument_index + 1;
        }
    }

    /// Move the cursor one instrument back, wrapping modulo the bank
    /// length. Nothing else changes.
    pub fn prev_instrument(&mut self)
        requires
            old(self).wf(),
        ensures
            final(self).wf(),
            final(self).current_instrument_index
                == retreat_cursor(old(self).current_instrument_index as int, old(self).instruments@.len() as int),
            final(self).instruments == old(self).instruments,
            final(self).notes_pressed == old(self).notes_pressed,
    {
        if self.current_instrument_index == 0 {
            self.current_instrument_index = self.instruments.len() - 1;
        } else {
            self.current_instrument_index = self.current_instrument_index - 1;
        }
    }

    /// Mark a note active in the tracker. The bank is untouched; the
    /// caller schedules the note's deferred release.
    pub fn press_note(&mut self, note: Note)
        requires
            old(self).wf(),
        ensures
            final(self).wf(),
            final(self).notes_pressed@ == mark(old(self).notes_pressed@, (Mark { note, active: true })),
            final(self).notes_pressed.spec_is_active(note),
            forall|n: Note| n != note ==>
                final(self).notes_pressed.spec_is_active(n) == old(self).notes_pressed.spec_is_active(n),
            final(self).instruments == old(self).instruments,
            final(self).current_instrument_index == old(self).current_instrument_index,
    {
        self.notes_pressed.mark_active(note);
    }

    /// Clear a note's active flag. Called on behalf of the deferred-release
    /// task once its delay has elapsed; never on the trigger path.
    pub fn release_note(&mut self, note: Note)
        requires
            old(self).wf(),
        ensures
            final(self).wf(),
            final(self).notes_pressed@ == mark(old(self).notes_pressed@, (Mark { note, active: false })),
            !final(self).notes_pressed.spec_is_active(note),
            forall|n: Note| n != note ==>
                final(self).notes_pressed.spec_is_active(n) == old(self).notes_pressed.spec_is_active(n),
            final(self).instruments == old(self).instruments,
            final(self).current_instrument_index == old(self).current_instrument_index,
    {
        self.notes_pressed.mark_inactive(note);
    }

    /// The trigger engine: translate one input event into the action the
    /// run loop must take.
    ///
    /// Quit exits with the state untouched; navigation only moves the
    /// cursor; a bound key marks its note active and yields exactly one
    /// playback command at the note's pitch ratio on the instrument under
    /// the cursor; an unbound key is a silent no-op that mutates nothing.
    pub fn handle_event(&mut self, ev: InputEvent) -> (a: Action)
        requires
            old(self).wf(),
        ensures
            final(self).wf(),
            (match ev {
                InputEvent::Quit => a == Action::Exit && *final(self) == *old(self),
                InputEvent::NextInstrument => {
                    &&& a == Action::Ignore
                    &&& final(self).current_instrument_index
                        == advance_cursor(old(self).current_instrument_index as int, old(self).instruments@.len() as int)
                    &&& final(self).instruments == old(self).instruments
                    &&& final(self).notes_pressed == old(self).notes_pressed
                },
                InputEvent::PrevInstrument => {
                    &&& a == Action::Ignore
                    &&& final(self).current_instrument_index
                        == retreat_cursor(old(self).current_instrument_index as int, old(self).instruments@.len() as int)
                    &&& final(self).instruments == old(self).instruments
                    &&& final(self).notes_pressed == old(self).notes_pressed
                },
                InputEvent::Char(c) => (match spec_note_of(c) {
                    Some(n) => {
                        &&& a == Action::Play((PlayCommand {
                            instrument_index: old(self).current_instrument_index,
                            note: n,
                            ratio: spec_ratio_of(n),
                        }))
                        &&& final(self).notes_pressed@
                            == mark(old(self).notes_pressed@, (Mark { note: n, active: true }))
                        &&& final(self).instruments == old(self).instruments
                        &&& final(self).current_instrument_index == old(self).current_instrument_index
                    },
                    None => a == Action::Ignore && *final(self) == *old(self),
                }),
            }),
    {
        match ev {
            InputEvent::Quit => Action::Exit,
            InputEvent::NextInstrument => {
                self.next_instrument();
                Action::Ignore
            },
            InputEvent::PrevInstrument => {
                self.prev_instrument();
                Action::Ignore
            },
            InputEvent::Char(c) => {
                match note_of(c) {
                    Some(note) => {
                        let ratio = ratio_of(note);
                        let instrument_index = self.current_instrument_index;
                        self.press_note(note);
                        Action::Play(PlayCommand { instrument_index, note, ratio })
                    },
                    None => Action::Ignore,
                }
            },
        }
    }
}

} // verus!
