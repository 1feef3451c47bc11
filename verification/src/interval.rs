//! Semitone distances.

use vstd::prelude::*;

verus! {

/// A signed distance between two pitches, counted in semitones.
///
/// An interval is not reduced to an octave: thirteen semitones and one
/// semitone are different intervals.
#[derive(Clone, Copy, Debug, PartialEq, Eq, Structural)]
pub struct Interval {
    semitones: i64,
}

impl Interval {
    /// The number of semitones, as a mathematical integer.
    pub closed spec fn view(&self) -> int {
        self.semitones as int
    }

    /// The interval of `semitones` semitones. Only counts that fit the
    /// machine representation name an interval that a program can hold.
    pub closed spec fn of_semitones(semitones: int) -> Interval {
        Interval { semitones: semitones as i64 }
    }

    /// A count that fits the machine representation is the number of
    /// semitones of its interval.
    pub proof fn lemma_of_semitones(semitones: int)
        requires
            i64::MIN <= semitones <= i64::MAX,
        ensures
            Interval::of_semitones(semitones)@ == semitones,
    {
    }

    /// Two intervals of the same number of semitones are the same interval.
    pub proof fn lemma_view_injective(self, other: Interval)
        ensures
            self@ == other@ <==> self == other,
    {
    }

    /// The interval of `semitones` semitones.
    pub fn new(semitones: i64) -> (interval: Interval)
        ensures
            interval@ == semitones,
            interval == Interval::of_semitones(semitones as int),
    {
        Interval { semitones }
    }

    /// The number of semitones in this interval.
    pub fn semitones(self) -> (semitones: i64)
        ensures
            semitones == self@,
    {
        self.semitones
    }
}

impl core::ops::Add for Interval {
    type Output = Interval;

    /// The two distances one after the other: their semitones added, with
    /// no reduction to an octave.
    fn add(self, other: Interval) -> (sum: Interval)
        ensures
            sum@ == self@ + other@,
    {
        Interval { semitones: self.semitones + other.semitones }
    }
}

impl vstd::std_specs::ops::AddSpecImpl for Interval {
    open spec fn obeys_add_spec() -> bool {
        true
    }

    open spec fn add_req(self, other: Interval) -> bool {
        i64::MIN <= self@ + other@ <= i64::MAX
    }

    open spec fn add_spec(self, other: Interval) -> Interval {
        Interval::of_semitones(self@ + other@)
    }
}

impl core::ops::Sub for Interval {
    type Output = Interval;

    /// The first distance shortened by the second: their semitones
    /// subtracted, with no reduction to an octave.
    fn sub(self, other: Interval) -> (difference: Interval)
        ensures
            difference@ == self@ - other@,
    {
        Interval { semitones: self.semitones - other.semitones }
    }
}

impl vstd::std_specs::ops::SubSpecImpl for Interval {
    open spec fn obeys_sub_spec() -> bool {
        true
    }

    open spec fn sub_req(self, other: Interval) -> bool {
        i64::MIN <= self@ - other@ <= i64::MAX
    }

    open spec fn sub_spec(self, other: Interval) -> Interval {
        Interval::of_semitones(self@ - other@)
    }
}

} // verus!
