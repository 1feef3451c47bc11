//! Chromatic pitch classes and their arithmetic modulo twelve.

use vstd::prelude::*;
use crate::interval::Interval;
use crate::note::{Accidental, Letter, Note};

verus! {

/// One of the twelve pitch classes of equal temperament, C being class 0.
///
/// The black keys carry their sharp names; each is also the flat of the
/// letter above it.
#[allow(non_camel_case_types)]
#[derive(Clone, Copy, Debug, PartialEq, Eq, Structural, PartialOrd, Ord, Hash)]
pub enum Pitch {
    C,
    C_SHARP,
    D,
    D_SHARP,
    E,
    F,
    F_SHARP,
    G,
    G_SHARP,
    A,
    A_SHARP,
    B,
}

impl Pitch {
    /// The number of the pitch class, from 0 for C to 11 for B.
    pub open spec fn view(&self) -> int {
        match *self {
            Pitch::C => 0,
            Pitch::C_SHARP => 1,
            Pitch::D => 2,
            Pitch::D_SHARP => 3,
            Pitch::E => 4,
            Pitch::F => 5,
            Pitch::F_SHARP => 6,
            Pitch::G => 7,
            Pitch::G_SHARP => 8,
            Pitch::A => 9,
            Pitch::A_SHARP => 10,
            Pitch::B => 11,
        }
    }

    /// The pitch class that lies `semitones` semitones from C, counted
    /// upwards for a positive number and downwards for a negative one.
    pub open spec fn of_semitones(semitones: int) -> Pitch {
        let class = semitones % 12;
        if class == 0 {
            Pitch::C
        } else if class == 1 {
            Pitch::C_SHARP
        } else if class == 2 {
            Pitch::D
        } else if class == 3 {
            Pitch::D_SHARP
        } else if class == 4 {
            Pitch::E
        } else if class == 5 {
            Pitch::F
        } else if class == 6 {
            Pitch::F_SHARP
        } else if class == 7 {
            Pitch::G
        } else if class == 8 {
            Pitch::G_SHARP
        } else if class == 9 {
            Pitch::A
        } else if class == 10 {
            Pitch::A_SHARP
        } else {
            Pitch::B
        }
    }

    /// The pitch class that a spelled note sounds: the letter's offset from
    /// C plus the accidental's shift, taken modulo twelve.
    pub open spec fn of_note(note: Note) -> Pitch {
        Pitch::of_semitones(note.letter.offset() + note.accidental.delta())
    }

    /// The number of semitones between the numbers of two pitch classes,
    /// whichever of them is the higher: the distance from C to B is 11, not 1.
    pub open spec fn distance(self, other: Pitch) -> int {
        if self@ >= other@ {
            self@ - other@
        } else {
            other@ - self@
        }
    }

    /// A pitch class has a number from 0 to 11, and is the pitch class of
    /// its own number.
    pub proof fn lemma_view_bounds(self)
        ensures
            0 <= self@ < 12,
            Pitch::of_semitones(self@) == self,
    {
    }

    /// Two pitch classes are equal exactly when their numbers are.
    pub proof fn lemma_view_injective(self, other: Pitch)
        ensures
            self@ == other@ <==> self == other,
    {
    }

    /// The number of the pitch class `semitones` from C is the remainder of
    /// `semitones` by twelve, which is never negative.
    pub proof fn lemma_of_semitones_view(semitones: int)
        ensures
            Pitch::of_semitones(semitones)@ == semitones % 12,
    {
    }

    /// The pitch class whose number is `byte` modulo twelve.
    pub fn from_byte(byte: u8) -> (pitch: Pitch)
        ensures
            pitch == Pitch::of_semitones(byte as int),
    {
        let class: u8 = byte % 12;
        match class {
            0 => Pitch::C,
            1 => Pitch::C_SHARP,
            2 => Pitch::D,
            3 => Pitch::D_SHARP,
            4 => Pitch::E,
            5 => Pitch::F,
            6 => Pitch::F_SHARP,
            7 => Pitch::G,
            8 => Pitch::G_SHARP,
            9 => Pitch::A,
            10 => Pitch::A_SHARP,
            _ => Pitch::B,
        }
    }

    /// The pitch class `semitones` semitones from C. A negative count wraps
    /// downwards: one semitone below C is B.
    pub fn from_semitones(semitones: i64) -> (pitch: Pitch)
        ensures
            pitch == Pitch::of_semitones(semitones as int),
    {
        let remainder: i64 = semitones % 12;
        let class: i64 = if remainder < 0 {
            remainder + 12
        } else {
            remainder
        };
        Pitch::from_byte(class as u8)
    }

    /// The number of the pitch class, from 0 for C to 11 for B.
    pub fn into_byte(self) -> (byte: u8)
        ensures
            byte == self@,
    {
        match self {
            Pitch::C => 0,
            Pitch::C_SHARP => 1,
            Pitch::D => 2,
            Pitch::D_SHARP => 3,
            Pitch::E => 4,
            Pitch::F => 5,
            Pitch::F_SHARP => 6,
            Pitch::G => 7,
            Pitch::G_SHARP => 8,
            Pitch::A => 9,
            Pitch::A_SHARP => 10,
            Pitch::B => 11,
        }
    }

    /// The pitch class of a letter without an accidental.
    pub fn natural(letter: Letter) -> (pitch: Pitch)
        ensures
            pitch@ == letter.offset(),
    {
        match letter {
            Letter::C => Pitch::C,
            Letter::D => Pitch::D,
            Letter::E => Pitch::E,
            Letter::F => Pitch::F,
            Letter::G => Pitch::G,
            Letter::A => Pitch::A,
            Letter::B => Pitch::B,
        }
    }

    /// The pitch class that `note` sounds.
    pub fn from_note(note: Note) -> (pitch: Pitch)
        ensures
            pitch == Pitch::of_note(note),
    {
        let offset: i64 = note.letter.semitones() as i64;
        let delta: i64 = note.accidental.semitones() as i64;
        Pitch::from_semitones(offset + delta)
    }
}

impl core::ops::Add<Interval> for Pitch {
    type Output = Pitch;

    /// The pitch class `interval` away from `self`: upwards for a positive
    /// interval, downwards for a negative one, wrapping at the octave.
    fn add(self, interval: Interval) -> (pitch: Pitch)
        ensures
            pitch == Pitch::of_semitones(self@ + interval@),
    {
        let shift: i64 = interval.semitones() % 12;
        let class: i64 = self.into_byte() as i64;
        assert((class + shift) % 12 == (self@ + interval@) % 12);
        Pitch::from_semitones(class + shift)
    }
}

impl vstd::std_specs::ops::AddSpecImpl<Interval> for Pitch {
    open spec fn obeys_add_spec() -> bool {
        true
    }

    open spec fn add_req(self, interval: Interval) -> bool {
        true
    }

    open spec fn add_spec(self, interval: Interval) -> Pitch {
        Pitch::of_semitones(self@ + interval@)
    }
}

impl core::ops::Sub for Pitch {
    type Output = Interval;

    /// The interval between `self` and `other`, measured between their
    /// numbers: from no semitones to eleven, never negative, and the same
    /// in either order.
    fn sub(self, other: Pitch) -> (interval: Interval)
        ensures
            interval@ == self.distance(other),
    {
        let high: u8 = self.into_byte();
        let low: u8 = other.into_byte();
        if high >= low {
            Interval::new((high - low) as i64)
        } else {
            Interval::new((low - high) as i64)
        }
    }
}

impl vstd::std_specs::ops::SubSpecImpl for Pitch {
    open spec fn obeys_sub_spec() -> bool {
        true
    }

    open spec fn sub_req(self, other: Pitch) -> bool {
        true
    }

    open spec fn sub_spec(self, other: Pitch) -> Interval {
        Interval::of_semitones(self.distance(other))
    }
}

} // verus!
