//! Pitch modifiers.

use vstd::prelude::*;

verus! {

/// A modifier that raises or lowers a letter by up to two semitones.
#[derive(Clone, Copy, Debug, PartialEq, Eq, Structural)]
pub enum Accidental {
    DoubleFlat,
    Flat,
    Natural,
    Sharp,
    DoubleSharp,
}

impl Accidental {
    /// The number of semitones this accidental adds to a letter.
    pub open spec fn delta(self) -> int {
        match self {
            Accidental::DoubleFlat => -2,
            Accidental::Flat => -1,
            Accidental::Natural => 0,
            Accidental::Sharp => 1,
            Accidental::DoubleSharp => 2,
        }
    }

    /// The characters this accidental is written with, after the letter.
    pub open spec fn glyphs(self) -> Seq<char> {
        match self {
            Accidental::DoubleFlat => seq!['b', 'b'],
            Accidental::Flat => seq!['b'],
            Accidental::Natural => seq![],
            Accidental::Sharp => seq!['#'],
            Accidental::DoubleSharp => seq!['#', '#'],
        }
    }

    /// The number of semitones this accidental adds to a letter.
    pub fn semitones(self) -> (semitones: i8)
        ensures
            semitones == self.delta(),
    {
        match self {
            Accidental::DoubleFlat => -2,
            Accidental::Flat => -1,
            Accidental::Natural => 0,
            Accidental::Sharp => 1,
            Accidental::DoubleSharp => 2,
        }
    }

    /// The accidental's symbol as text: empty for a natural, otherwise one
    /// or two characters.
    pub fn symbol(self) -> (symbol: &'static str)
        ensures
            symbol@ == self.glyphs(),
    {
        proof {
            reveal_strlit("bb");
            reveal_strlit("b");
            reveal_strlit("");
            reveal_strlit("#");
            reveal_strlit("##");
        }
        let symbol = match self {
            Accidental::DoubleFlat => "bb",
            Accidental::Flat => "b",
            Accidental::Natural => "",
            Accidental::Sharp => "#",
            Accidental::DoubleSharp => "##",
        };
        assert(symbol@ =~= self.glyphs());
        symbol
    }
}

} // verus!
