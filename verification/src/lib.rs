//! Music-theory primitives: pitch classes, spelled notes, intervals and the
//! enharmonic relationships between them.

use vstd::prelude::*;

mod interval;
pub mod note;
pub mod pitch;

pub use interval::Interval;
use pitch::Pitch;

verus! {

/// The pitch class that lies as far above `to` as `key` and `note` lie
/// apart.
pub open spec fn transposed(key: Pitch, note: Pitch, to: Pitch) -> Pitch {
    Pitch::of_semitones(to@ + key.distance(note))
}

/// Moves `note` from the key of `key` to the key of `to`.
///
/// The interval between `key` and `note` is taken between their numbers and
/// is never negative, so a note below its key moves as the note that far
/// above the key would.
pub fn transpose(key: Pitch, note: Pitch, to: Pitch) -> (pitch: Pitch)
    ensures
        pitch == transposed(key, note, to),
{
    let f = key - note;
    to + f
}

/// A note at or above its key keeps its place in the key: it ends as many
/// semitones above the new key, up to octaves, as it was above the old one.
pub proof fn lemma_transpose_keeps_degree(key: Pitch, note: Pitch, to: Pitch)
    requires
        key@ <= note@,
    ensures
        (transposed(key, note, to)@ - to@) % 12 == note@ - key@,
{
}

/// The key note itself moves to the new key, and moving a key onto itself
/// leaves every note at or above it in place.
pub proof fn lemma_transpose_fixes_key(key: Pitch, note: Pitch, to: Pitch)
    ensures
        transposed(key, key, to) == to,
        key@ <= note@ ==> transposed(key, note, key) == note,
{
}

} // verus!
