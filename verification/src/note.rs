//! Notes and the cells that hold them.

use vstd::prelude::*;

verus! {

/// The highest pitch a note can have.
pub const MAX_KEY: u8 = 127;

/// A musical event: a pitch and the instrument that plays it.
///
/// The pitch is a semitone index from 0 to `MAX_KEY`, where 0 is the C of
/// the lowest octave. A note never changes once it is made.
#[derive(Clone, Copy, Debug, PartialEq, Eq, Structural)]
pub struct Note {
    key: u8,
    instrument: u8,
}

impl Note {
    #[verifier::type_invariant]
    spec fn in_range(self) -> bool {
        self.key <= MAX_KEY
    }

    /// The pitch of the note.
    pub closed spec fn spec_key(&self) -> u8 {
        self.key
    }

    /// The instrument of the note.
    pub closed spec fn spec_instrument(&self) -> u8 {
        self.instrument
    }

    /// The note with this pitch and this instrument.
    pub closed spec fn with(key: u8, instrument: u8) -> Note {
        Note { key, instrument }
    }

    /// Makes a note, unless `key` is above `MAX_KEY`.
    pub fn new(key: u8, instrument: u8) -> (made: Option<Note>)
        ensures
            made == if key <= MAX_KEY {
                Some(Note::with(key, instrument))
            } else {
                None
            },
    {
        if key <= MAX_KEY {
            Some(Note { key, instrument })
        } else {
            None
        }
    }

    /// The pitch of the note, which is never above `MAX_KEY`.
    #[verifier::when_used_as_spec(spec_key)]
    pub fn key(&self) -> (key: u8)
        ensures
            key == self.key(),
            key <= MAX_KEY,
    {
        proof {
            use_type_invariant(self);
        }
        self.key
    }

    /// The instrument of the note.
    #[verifier::when_used_as_spec(spec_instrument)]
    pub fn instrument(&self) -> (instrument: u8)
        ensures
            instrument == self.instrument(),
    {
        self.instrument
    }

    /// A note has the pitch and the instrument it was made with.
    pub broadcast proof fn lemma_with_fields(key: u8, instrument: u8)
        ensures
            (#[trigger] Note::with(key, instrument)).key() == key,
            Note::with(key, instrument).instrument() == instrument,
    {
    }

    /// Two notes with the same pitch and instrument are the same note.
    pub proof fn lemma_same_fields_same_note(a: Note, b: Note)
        requires
            a.key() == b.key(),
            a.instrument() == b.instrument(),
        ensures
            a == b,
    {
    }
}

/// One time step: silence, or exactly one note.
#[derive(Clone, Copy, Debug, PartialEq, Eq, Structural)]
pub enum Cell {
    Empty,
    Occupied(Note),
}

impl Cell {
    /// The note in the cell, if it holds one.
    pub fn note(&self) -> (note: Option<Note>)
        ensures
            note == match *self {
                Cell::Empty => None::<Note>,
                Cell::Occupied(n) => Some(n),
            },
    {
        match *self {
            Cell::Empty => None,
            Cell::Occupied(n) => Some(n),
        }
    }

    /// Whether the cell is silent.
    pub fn is_empty(&self) -> (empty: bool)
        ensures
            empty <==> *self == Cell::Empty,
    {
        match *self {
            Cell::Empty => true,
            Cell::Occupied(_) => false,
        }
    }
}

} // verus!
