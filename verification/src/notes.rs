//! The fixed note universe, the just-intonation pitch table, and the
//! keyboard layout that binds input keys to notes.

use vstd::prelude::*;

verus! {

/// One of the twelve chromatic pitch classes, c through b.
#[derive(Clone, Copy, PartialEq, Eq, Structural, Debug)]
pub enum Note {
    C,
    Cs,
    D,
    Ds,
    E,
    F,
    Fs,
    G,
    Gs,
    A,
    As,
    B,
}

/// A playback-rate multiplier expressed as an exact positive rational,
/// `num / den`, relative to the root note c.
#[derive(Clone, Copy, PartialEq, Eq, Structural, Debug)]
pub struct Ratio {
    pub num: u32,
    pub den: u32,
}

impl Note {
    /// Position of the note in the chromatic scale, c = 0 through b = 11.
    pub open spec fn spec_index(self) -> int {
        match self {
            Note::C => 0,
            Note::Cs => 1,
            Note::D => 2,
            Note::Ds => 3,
            Note::E => 4,
            Note::F => 5,
            Note::Fs => 6,
            Note::G => 7,
            Note::Gs => 8,
            Note::A => 9,
            Note::As => 10,
            Note::B => 11,
        }
    }

    /// Chromatic position of the note, always below `NOTE_COUNT`.
    pub fn index(self) -> (i: usize)
        ensures
            i == self.spec_index(),
            i < crate::NOTE_COUNT,
    {
        match self {
            Note::C => 0,
            Note::Cs => 1,
            Note::D => 2,
            Note::Ds => 3,
            Note::E => 4,
            Note::F => 5,
            Note::Fs => 6,
            Note::G => 7,
            Note::Gs => 8,
            Note::A => 9,
            Note::As => 10,
            Note::B => 11,
        }
    }

    /// Display name of the note, as printed on the drawn keyboard.
    pub open spec fn spec_name(self) -> Seq<char> {
        match self {
            Note::C => "c"@,
            Note::Cs => "c#"@,
            Note::D => "d"@,
            Note::Ds => "d#"@,
            Note::E => "e"@,
            Note::F => "f"@,
            Note::Fs => "f#"@,
            Note::G => "g"@,
            Note::Gs => "g#"@,
            Note::A => "a"@,
            Note::As => "a#"@,
            Note::B => "b"@,
        }
    }

    /// Display name of the note.
    pub fn name(self) -> (r: &'static str)
        ensures
            r@ == self.spec_name(),
    {
        match self {
            Note::C => "c",
            Note::Cs => "c#",
            Note::D => "d",
            Note::Ds => "d#",
            Note::E => "e",
            Note::F => "f",
            Note::Fs => "f#",
            Note::G => "g",
            Note::Gs => "g#",
            Note::A => "a",
            Note::As => "a#",
            Note::B => "b",
        }
    }
}

/// The just-intonation ratio of each note relative to c.
pub open spec fn spec_ratio_of(note: Note) -> Ratio {
    match note {
        Note::C => Ratio { num: 1, den: 1 },
        Note::Cs => Ratio { num: 17, den: 16 },
        Note::D => Ratio { num: 9, den: 8 },
        Note::Ds => Ratio { num: 6, den: 5 },
        Note::E => Ratio { num: 5, den: 4 },
        Note::F => Ratio { num: 4, den: 3 },
        Note::Fs => Ratio { num: 45, den: 32 },
        Note::G => Ratio { num: 3, den: 2 },
        Note::Gs => Ratio { num: 8, den: 5 },
        Note::A => Ratio { num: 5, den: 3 },
        Note::As => Ratio { num: 7, den: 4 },
        Note::B => Ratio { num: 15, den: 8 },
    }
}

/// The pitch table: total over the note universe, and every ratio it
/// returns is a positive rational.
pub fn ratio_of(note: Note) -> (r: Ratio)
    ensures
        r == spec_ratio_of(note),
        r.num > 0,
        r.den > 0,
{
    match note {
        Note::C => Ratio { num: 1, den: 1 },
        Note::Cs => Ratio { num: 17, den: 16 },
        Note::D => Ratio { num: 9, den: 8 },
        Note::Ds => Ratio { num: 6, den: 5 },
        Note::E => Ratio { num: 5, den: 4 },
        Note::F => Ratio { num: 4, den: 3 },
        Note::Fs => Ratio { num: 45, den: 32 },
        Note::G => Ratio { num: 3, den: 2 },
        Note::Gs => Ratio { num: 8, den: 5 },
        Note::A => Ratio { num: 5, den: 3 },
        Note::As => Ratio { num: 7, den: 4 },
        Note::B => Ratio { num: 15, den: 8 },
    }
}

/// Every note's pitch ratio is positive: the pitch table never slows a
/// sample to a halt or reverses it.
pub proof fn lemma_ratio_positive(note: Note)
    ensures
        spec_ratio_of(note).num > 0,
        spec_ratio_of(note).den > 0,
{
}

/// The default keyboard layout: which note, if any, an input key is bound
/// to. Unbound keys map to no note at all.
pub open spec fn spec_note_of(key: char) -> Option<Note> {
    if key == 'q' {
        Some(Note::C)
    } else if key == 'z' {
        Some(Note::Cs)
    } else if key == 's' {
        Some(Note::D)
    } else if key == 'e' {
        Some(Note::Ds)
    } else if key == 'd' {
        Some(Note::E)
    } else if key == 'f' {
        Some(Note::F)
    } else if key == 't' {
        Some(Note::Fs)
    } else if key == 'g' {
        Some(Note::G)
    } else if key == 'y' {
        Some(Note::Gs)
    } else if key == 'h' {
        Some(Note::A)
    } else if key == 'u' {
        Some(Note::As)
    } else if key == 'j' {
        Some(Note::B)
    } else {
        None
    }
}

/// The key map: returns the configured note for each bound key and nothing
/// for every other key. An unbound key is a normal no-action outcome, not
/// an error.
pub fn note_of(key: char) -> (r: Option<Note>)
    ensures
        r == spec_note_of(key),
{
    match key {
        'q' => Some(Note::C),
        'z' => Some(Note::Cs),
        's' => Some(Note::D),
        'e' => Some(Note::Ds),
        'd' => Some(Note::E),
        'f' => Some(Note::F),
        't' => Some(Note::Fs),
        'g' => Some(Note::G),
        'y' => Some(Note::Gs),
        'h' => Some(Note::A),
        'u' => Some(Note::As),
        'j' => Some(Note::B),
        _ => None,
    }
}

} // verus!
