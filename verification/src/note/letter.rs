//! The seven natural note names.

use vstd::prelude::*;

verus! {

/// One of the seven natural note names.
#[derive(Clone, Copy, Debug, PartialEq, Eq, Structural)]
pub enum Letter {
    C,
    D,
    E,
    F,
    G,
    A,
    B,
}

impl Letter {
    /// The number of semitones from C up to this natural letter.
    pub open spec fn offset(self) -> int {
        match self {
            Letter::C => 0,
            Letter::D => 2,
            Letter::E => 4,
            Letter::F => 5,
            Letter::G => 7,
            Letter::A => 9,
            Letter::B => 11,
        }
    }

    /// The natural letter that lies `offset` semitones above C, if there is
    /// one: the white keys have one, the black keys have none.
    pub open spec fn at_offset(offset: int) -> Option<Letter> {
        if offset == 0 {
            Some(Letter::C)
        } else if offset == 2 {
            Some(Letter::D)
        } else if offset == 4 {
            Some(Letter::E)
        } else if offset == 5 {
            Some(Letter::F)
        } else if offset == 7 {
            Some(Letter::G)
        } else if offset == 9 {
            Some(Letter::A)
        } else if offset == 11 {
            Some(Letter::B)
        } else {
            None
        }
    }

    /// The character this letter is written with.
    pub open spec fn glyph(self) -> char {
        match self {
            Letter::C => 'C',
            Letter::D => 'D',
            Letter::E => 'E',
            Letter::F => 'F',
            Letter::G => 'G',
            Letter::A => 'A',
            Letter::B => 'B',
        }
    }

    /// The number of semitones from C up to this natural letter.
    pub fn semitones(self) -> (semitones: u8)
        ensures
            semitones == self.offset(),
    {
        match self {
            Letter::C => 0,
            Letter::D => 2,
            Letter::E => 4,
            Letter::F => 5,
            Letter::G => 7,
            Letter::A => 9,
            Letter::B => 11,
        }
    }

    /// The letter's name as text: one upper-case character.
    pub fn name(self) -> (name: &'static str)
        ensures
            name@ == seq![self.glyph()],
    {
        proof {
            reveal_strlit("C");
            reveal_strlit("D");
            reveal_strlit("E");
            reveal_strlit("F");
            reveal_strlit("G");
            reveal_strlit("A");
            reveal_strlit("B");
        }
        let name = match self {
            Letter::C => "C",
            Letter::D => "D",
            Letter::E => "E",
            Letter::F => "F",
            Letter::G => "G",
            Letter::A => "A",
            Letter::B => "B",
        };
        assert(name@ =~= seq![self.glyph()]);
        name
    }
}

} // verus!
