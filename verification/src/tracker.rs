//! The note activity tracker: one boolean "currently active" flag per note,
//! driving the visual key highlight.
//!
//! The trigger path sets a flag on press; a deferred-release collaborator
//! clears it again after a fixed delay; the render collaborator reads it on
//! every frame. Those collaborators run in other execution contexts and
//! serialize their access through one mutual-exclusion lock around a value
//! of this type; the state transitions themselves live here.

use vstd::prelude::*;

verus! {

use crate::notes::Note;

/// Per-note active/inactive state. Every note of the fixed universe has an
/// entry at all times: the tracker is never partially initialized.
///
/// Its view is the sequence of flags, indexed by chromatic position.
pub struct NoteActivity {
    flags: Vec<bool>,
}

/// One tracker write: set the flag of one note to `active`. A press writes
/// `true`; a deferred release writes `false`.
pub struct Mark {
    pub note: Note,
    pub active: bool,
}

impl View for NoteActivity {
    type V = Seq<bool>;

    closed spec fn view(&self) -> Seq<bool> {
        self.flags@
    }
}

/// The flag sequence after one write: the named note's flag becomes
/// `m.active`, every other flag is untouched.
pub open spec fn mark(s: Seq<bool>, m: Mark) -> Seq<bool> {
    s.update(m.note.spec_index(), m.active)
}

/// The flag sequence after a whole run of writes, applied in order.
/// Presses and deferred releases from any context interleave into one such
/// run, since a single lock serializes them.
pub open spec fn apply_marks(s: Seq<bool>, marks: Seq<Mark>) -> Seq<bool>
    decreases marks.len(),
{
    if marks.len() == 0 {
        s
    } else {
        apply_marks(mark(s, marks[0]), marks.skip(1))
    }
}

impl NoteActivity {
    /// Structural invariant: one flag per note of the fixed universe.
    pub open spec fn wf(self) -> bool {
        self@.len() == crate::NOTE_COUNT
    }

    /// Whether `note` is currently active.
    pub open spec fn spec_is_active(self, note: Note) -> bool {
        self@[note.spec_index()]
    }

    /// A fresh tracker: every note present, every note inactive.
    pub fn new() -> (t: NoteActivity)
        ensures
            t.wf(),
            forall|n: Note| !t.spec_is_active(n),
    {
        let mut flags: Vec<bool> = Vec::new();
        let mut i: usize = 0;
        while i < crate::NOTE_COUNT
            invariant
                i <= crate::NOTE_COUNT,
                flags@.len() == i,
                forall|k: int| 0 <= k < i ==> !flags@[k],
            decreases crate::NOTE_COUNT - i,
        {
            flags.push(false);
            i = i + 1;
        }
        NoteActivity { flags }
    }

    /// Set `note` active. The pressed note reads as active at once; every
    /// other note keeps its state.
    pub fn mark_active(&mut self, note: Note)
        requires
            old(self).wf(),
        ensures
            final(self)@ == mark(old(self)@, (Mark { note, active: true })),
            final(self).wf(),
            final(self).spec_is_active(note),
            forall|n: Note| n != note ==>
                final(self).spec_is_active(n) == old(self).spec_is_active(n),
    {
        let i = note.index();
        self.flags.set(i, true);
        proof {
            lemma_mark_effect(old(self)@, (Mark { note, active: true }));
        }
    }

    /// Set `note` inactive. Invoked by the deferred-release task once its
    /// delay has elapsed, never by the trigger path. Only this note's flag
    /// changes.
    pub fn mark_inactive(&mut self, note: Note)
        requires
            old(self).wf(),
        ensures
            final(self)@ == mark(old(self)@, (Mark { note, active: false })),
            final(self).wf(),
            !final(self).spec_is_active(note),
            forall|n: Note| n != note ==>
                final(self).spec_is_active(n) == old(self).spec_is_active(n),
    {
        let i = note.index();
        self.flags.set(i, false);
        proof {
            lemma_mark_effect(old(self)@, (Mark { note, active: false }));
        }
    }

    /// Number of per-note entries the tracker holds; `wf` asks for exactly
    /// one per note. Lets an unverified caller check the invariant.
    pub fn flag_count(&self) -> (n: usize)
        ensures
            n == self@.len(),
    {
        self.flags.len()
    }

    /// Read `note`'s flag. Pure: the tracker is unchanged.
    pub fn is_active(&self, note: Note) -> (r: bool)
        requires
            self.wf(),
        ensures
            r == self.spec_is_active(note),
    {
        let i = note.index();
        self.flags[i]
    }
}

/// One write changes exactly the flag it names: the named note reads back
/// the written value, every other note is untouched, and the length is
/// preserved.
pub proof fn lemma_mark_effect(s: Seq<bool>, m: Mark)
    requires
        s.len() == crate::NOTE_COUNT,
    ensures
        mark(s, m).len() == crate::NOTE_COUNT,
        mark(s, m)[m.note.spec_index()] == m.active,
        forall|n: Note| n != m.note ==> mark(s, m)[n.spec_index()] == s[n.spec_index()],
{
    assert forall|n: Note| n != m.note implies
        mark(s, m)[n.spec_index()] == s[n.spec_index()] by {
        assert(n.spec_index() != m.note.spec_index());
    }
}

/// Applying a run of writes preserves the tracker's shape: every note keeps
/// an entry.
pub proof fn lemma_apply_marks_wf(s: Seq<bool>, marks: Seq<Mark>)
    requires
        s.len() == crate::NOTE_COUNT,
    ensures
        apply_marks(s, marks).len() == crate::NOTE_COUNT,
    decreases marks.len(),
{
    if marks.len() > 0 {
        lemma_mark_effect(s, marks[0]);
        lemma_apply_marks_wf(mark(s, marks[0]), marks.skip(1));
    }
}

/// An active note stays active through any run of writes none of which
/// deactivates that very note: re-presses of the same note and writes to
/// other notes never make its flag flicker to false. The one write that can
/// end such a run is a deferred release of the note itself.
pub proof fn lemma_active_stays_active(s: Seq<bool>, marks: Seq<Mark>, note: Note)
    requires
        s.len() == crate::NOTE_COUNT,
        s[note.spec_index()],
        forall|i: int| 0 <= i < marks.len() ==>
            ((#[trigger] marks[i]).note != note || marks[i].active),
    ensures
        apply_marks(s, marks)[note.spec_index()],
    decreases marks.len(),
{
    if marks.len() > 0 {
        lemma_mark_effect(s, marks[0]);
        let s1 = mark(s, marks[0]);
        assert(s1[note.spec_index()]);
        assert(forall|i: int| 0 <= i < marks.skip(1).len() ==>
            marks.skip(1)[i] == marks[i + 1]);
        lemma_active_stays_active(s1, marks.skip(1), note);
    }
}

} // verus!
