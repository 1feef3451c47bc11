//! Spelled notes: a letter with an accidental, and the two canonical
//! spellings of each pitch class.

use vstd::prelude::*;
use crate::pitch::Pitch;

pub mod accidental;
pub mod letter;

pub use accidental::Accidental;
pub use letter::Letter;

verus! {

/// A spelled note: a letter and an accidental.
///
/// Every pair is a note of its own. `C#` and `Db` are different notes that
/// share a pitch class.
#[derive(Clone, Copy, Debug, PartialEq, Eq, Structural)]
pub struct Note {
    pub letter: Letter,
    pub accidental: Accidental,
}

impl Note {
    /// The spelling of `pitch` that prefers sharps: the natural letter on a
    /// white key, the sharp of the letter below on a black key.
    pub open spec fn sharp_spelling(pitch: Pitch) -> Note {
        match Letter::at_offset(pitch@) {
            Some(letter) => Note { letter, accidental: Accidental::Natural },
            None => Note {
                letter: Letter::at_offset(pitch@ - 1).unwrap(),
                accidental: Accidental::Sharp,
            },
        }
    }

    /// The spelling of `pitch` that prefers flats: the natural letter on a
    /// white key, the flat of the letter above on a black key.
    pub open spec fn flat_spelling(pitch: Pitch) -> Note {
        match Letter::at_offset(pitch@) {
            Some(letter) => Note { letter, accidental: Accidental::Natural },
            None => Note {
                letter: Letter::at_offset(pitch@ + 1).unwrap(),
                accidental: Accidental::Flat,
            },
        }
    }

    /// This note's pitch class, spelled with sharps.
    pub open spec fn in_sharps(self) -> Note {
        Note::sharp_spelling(Pitch::of_note(self))
    }

    /// This note's pitch class, spelled with flats.
    pub open spec fn in_flats(self) -> Note {
        Note::flat_spelling(Pitch::of_note(self))
    }

    /// Two notes are enharmonic when they sound the same pitch class.
    pub open spec fn enharmonic(self, other: Note) -> bool {
        Pitch::of_note(self) == Pitch::of_note(other)
    }

    /// The note as text: its letter, then the accidental's symbol.
    pub open spec fn text(self) -> Seq<char> {
        seq![self.letter.glyph()] + self.accidental.glyphs()
    }

    /// The note spelled with `letter` and `accidental`.
    pub fn new(letter: Letter, accidental: Accidental) -> (note: Note)
        ensures
            note == (Note { letter, accidental }),
    {
        Note { letter, accidental }
    }

    /// The note `letter` without an accidental.
    pub fn natural(letter: Letter) -> (note: Note)
        ensures
            note == (Note { letter, accidental: Accidental::Natural }),
    {
        Note::new(letter, Accidental::Natural)
    }

    /// The note one semitone below `letter`.
    pub fn flat(letter: Letter) -> (note: Note)
        ensures
            note == (Note { letter, accidental: Accidental::Flat }),
    {
        Note::new(letter, Accidental::Flat)
    }

    /// The note one semitone above `letter`.
    pub fn sharp(letter: Letter) -> (note: Note)
        ensures
            note == (Note { letter, accidental: Accidental::Sharp }),
    {
        Note::new(letter, Accidental::Sharp)
    }

    /// Spells `pitch` with a natural or a sharp.
    pub fn from_sharp(pitch: Pitch) -> (note: Note)
        ensures
            note == Note::sharp_spelling(pitch),
            Pitch::of_note(note) == pitch,
    {
        match pitch {
            Pitch::C => Note::natural(Letter::C),
            Pitch::C_SHARP => Note::sharp(Letter::C),
            Pitch::D => Note::natural(Letter::D),
            Pitch::D_SHARP => Note::sharp(Letter::D),
            Pitch::E => Note::natural(Letter::E),
            Pitch::F => Note::natural(Letter::F),
            Pitch::F_SHARP => Note::sharp(Letter::F),
            Pitch::G => Note::natural(Letter::G),
            Pitch::G_SHARP => Note::sharp(Letter::G),
            Pitch::A => Note::natural(Letter::A),
            Pitch::A_SHARP => Note::sharp(Letter::A),
            Pitch::B => Note::natural(Letter::B),
        }
    }

    /// Spells `pitch` with a natural or a flat.
    pub fn from_flat(pitch: Pitch) -> (note: Note)
        ensures
            note == Note::flat_spelling(pitch),
            Pitch::of_note(note) == pitch,
    {
        match pitch {
            Pitch::C => Note::natural(Letter::C),
            Pitch::C_SHARP => Note::flat(Letter::D),
            Pitch::D => Note::natural(Letter::D),
            Pitch::D_SHARP => Note::flat(Letter::E),
            Pitch::E => Note::natural(Letter::E),
            Pitch::F => Note::natural(Letter::F),
            Pitch::F_SHARP => Note::flat(Letter::G),
            Pitch::G => Note::natural(Letter::G),
            Pitch::G_SHARP => Note::flat(Letter::A),
            Pitch::A => Note::natural(Letter::A),
            Pitch::A_SHARP => Note::flat(Letter::B),
            Pitch::B => Note::natural(Letter::B),
        }
    }

    /// Returns the enharmonic note for `self` in flat notation: `G#` becomes
    /// `Ab`, and `Fb` becomes the natural `E`.
    pub fn into_flat(self) -> (respelled: Note)
        ensures
            respelled == self.in_flats(),
            Pitch::of_note(respelled) == Pitch::of_note(self),
    {
        Note::from_flat(Pitch::from_note(self))
    }

    /// Returns the enharmonic note for `self` in sharp notation: `Db`
    /// becomes `C#`, and `B#` becomes the natural `C`.
    pub fn into_sharp(self) -> (respelled: Note)
        ensures
            respelled == self.in_sharps(),
            Pitch::of_note(respelled) == Pitch::of_note(self),
    {
        Note::from_sharp(Pitch::from_note(self))
    }

    /// Returns `true` if `self` is enharmonically equivalent to `other`,
    /// which it also is when the two are the same note.
    pub fn is_enharmonic(self, other: Note) -> (equivalent: bool)
        ensures
            equivalent == self.enharmonic(other),
    {
        Pitch::from_note(self).into_byte() == Pitch::from_note(other).into_byte()
    }

    /// Writes the note as its letter followed by the accidental's symbol:
    /// nothing for a natural, `#` or `##` for sharps, `b` or `bb` for flats.
    pub fn to_string(&self) -> (text: String)
        ensures
            text@ == self.text(),
            1 <= text@.len() <= 3,
    {
        let mut text = String::from_str(self.letter.name());
        text.append(self.accidental.symbol());
        text
    }
}

/// Round trip: either spelling of a pitch class sounds that pitch class.
pub proof fn lemma_spelling_round_trip(pitch: Pitch)
    ensures
        Pitch::of_note(Note::sharp_spelling(pitch)) == pitch,
        Pitch::of_note(Note::flat_spelling(pitch)) == pitch,
{
}

/// Re-spelling a note, in sharps or in flats, keeps its pitch class: the
/// result is enharmonic with the note.
pub proof fn lemma_respelling_keeps_pitch(note: Note)
    ensures
        Pitch::of_note(note.in_sharps()) == Pitch::of_note(note),
        Pitch::of_note(note.in_flats()) == Pitch::of_note(note),
        note.enharmonic(note.in_sharps()),
        note.enharmonic(note.in_flats()),
{
    lemma_spelling_round_trip(Pitch::of_note(note));
}

/// Re-spelling is idempotent: a note that was re-spelled in sharps is
/// unchanged by re-spelling it in sharps again, and likewise in flats.
pub proof fn lemma_respelling_idempotent(note: Note)
    ensures
        note.in_sharps().in_sharps() == note.in_sharps(),
        note.in_flats().in_flats() == note.in_flats(),
{
    lemma_spelling_round_trip(Pitch::of_note(note));
}

/// A natural note is its own spelling, in sharps and in flats.
pub proof fn lemma_natural_is_canonical(letter: Letter)
    ensures
        (Note { letter, accidental: Accidental::Natural }).in_sharps() == (Note {
            letter,
            accidental: Accidental::Natural,
        }),
        (Note { letter, accidental: Accidental::Natural }).in_flats() == (Note {
            letter,
            accidental: Accidental::Natural,
        }),
{
}

/// Every note is enharmonic with itself.
pub proof fn lemma_enharmonic_reflexive(note: Note)
    ensures
        note.enharmonic(note),
{
}

/// Being enharmonic does not depend on the order of the two notes.
pub proof fn lemma_enharmonic_symmetric(a: Note, b: Note)
    ensures
        a.enharmonic(b) == b.enharmonic(a),
{
}

/// Two notes that are enharmonic with a third are enharmonic with each
/// other.
pub proof fn lemma_enharmonic_transitive(a: Note, b: Note, c: Note)
    requires
        a.enharmonic(b),
        b.enharmonic(c),
    ensures
        a.enharmonic(c),
{
}

/// Two notes are enharmonic exactly when they are re-spelled alike.
pub proof fn lemma_enharmonic_iff_same_spelling(a: Note, b: Note)
    ensures
        a.enharmonic(b) <==> a.in_sharps() == b.in_sharps(),
        a.enharmonic(b) <==> a.in_flats() == b.in_flats(),
{
    lemma_spelling_round_trip(Pitch::of_note(a));
    lemma_spelling_round_trip(Pitch::of_note(b));
}

} // verus!
