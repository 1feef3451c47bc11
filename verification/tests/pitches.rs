use music::note::{Accidental, Letter, Note};
use music::pitch::Pitch;
use music::Interval;

const CHROMATIC: [Pitch; 12] = [
    Pitch::C,
    Pitch::C_SHARP,
    Pitch::D,
    Pitch::D_SHARP,
    Pitch::E,
    Pitch::F,
    Pitch::F_SHARP,
    Pitch::G,
    Pitch::G_SHARP,
    Pitch::A,
    Pitch::A_SHARP,
    Pitch::B,
];

#[test]
fn bytes_number_the_pitches_from_c() {
    for (number, pitch) in CHROMATIC.iter().enumerate() {
        assert_eq!(pitch.into_byte() as usize, number);
        assert_eq!(Pitch::from_byte(number as u8), *pitch);
    }
}

#[test]
fn from_byte_wraps_at_the_octave() {
    assert_eq!(Pitch::from_byte(12), Pitch::C);
    assert_eq!(Pitch::from_byte(13), Pitch::C_SHARP);
    assert_eq!(Pitch::from_byte(23), Pitch::B);
    assert_eq!(Pitch::from_byte(255), Pitch::D_SHARP);
}

#[test]
fn from_semitones_wraps_upwards() {
    assert_eq!(Pitch::from_semitones(0), Pitch::C);
    assert_eq!(Pitch::from_semitones(11), Pitch::B);
    assert_eq!(Pitch::from_semitones(12), Pitch::C);
    assert_eq!(Pitch::from_semitones(26), Pitch::D);
    assert_eq!(Pitch::from_semitones(i64::MAX), Pitch::G);
}

#[test]
fn from_semitones_wraps_downwards() {
    assert_eq!(Pitch::from_semitones(-1), Pitch::B);
    assert_eq!(Pitch::from_semitones(-11), Pitch::C_SHARP);
    assert_eq!(Pitch::from_semitones(-12), Pitch::C);
    assert_eq!(Pitch::from_semitones(-13), Pitch::B);
    assert_eq!(Pitch::from_semitones(i64::MIN), Pitch::E);
}

#[test]
fn natural_letters_sit_on_the_white_keys() {
    assert_eq!(Pitch::natural(Letter::C), Pitch::C);
    assert_eq!(Pitch::natural(Letter::D), Pitch::D);
    assert_eq!(Pitch::natural(Letter::E), Pitch::E);
    assert_eq!(Pitch::natural(Letter::F), Pitch::F);
    assert_eq!(Pitch::natural(Letter::G), Pitch::G);
    assert_eq!(Pitch::natural(Letter::A), Pitch::A);
    assert_eq!(Pitch::natural(Letter::B), Pitch::B);
}

#[test]
fn from_note_adds_the_accidental_to_the_letter() {
    assert_eq!(Pitch::from_note(Note::natural(Letter::G)), Pitch::G);
    assert_eq!(Pitch::from_note(Note::sharp(Letter::F)), Pitch::F_SHARP);
    assert_eq!(Pitch::from_note(Note::flat(Letter::G)), Pitch::F_SHARP);
    assert_eq!(Pitch::from_note(Note::new(Letter::D, Accidental::DoubleSharp)), Pitch::E);
    assert_eq!(Pitch::from_note(Note::new(Letter::D, Accidental::DoubleFlat)), Pitch::C);
}

#[test]
fn from_note_wraps_at_both_ends() {
    assert_eq!(Pitch::from_note(Note::flat(Letter::C)), Pitch::B);
    assert_eq!(Pitch::from_note(Note::new(Letter::C, Accidental::DoubleFlat)), Pitch::A_SHARP);
    assert_eq!(Pitch::from_note(Note::sharp(Letter::B)), Pitch::C);
    assert_eq!(Pitch::from_note(Note::new(Letter::B, Accidental::DoubleSharp)), Pitch::C_SHARP);
}

#[test]
fn from_note_follows_the_formula() {
    let letters = [
        (Letter::C, 0),
        (Letter::D, 2),
        (Letter::E, 4),
        (Letter::F, 5),
        (Letter::G, 7),
        (Letter::A, 9),
        (Letter::B, 11),
    ];
    let accidentals = [
        (Accidental::DoubleFlat, -2),
        (Accidental::Flat, -1),
        (Accidental::Natural, 0),
        (Accidental::Sharp, 1),
        (Accidental::DoubleSharp, 2),
    ];
    for (letter, offset) in letters {
        for (accidental, delta) in accidentals {
            let class: i32 = (offset + delta + 12) % 12;
            let pitch = Pitch::from_note(Note::new(letter, accidental));
            assert_eq!(pitch.into_byte() as i32, class);
        }
    }
}

#[test]
fn pitches_are_equal_when_their_numbers_are() {
    for a in CHROMATIC {
        for b in CHROMATIC {
            assert_eq!(a == b, a.into_byte() == b.into_byte());
        }
    }
}

#[test]
fn pitches_are_ordered_by_number() {
    assert!(Pitch::C < Pitch::C_SHARP);
    assert!(Pitch::A_SHARP < Pitch::B);
    for a in CHROMATIC {
        for b in CHROMATIC {
            assert_eq!(a < b, a.into_byte() < b.into_byte());
        }
    }
}

#[test]
fn adding_an_interval_moves_up_and_wraps() {
    assert_eq!(Pitch::C + Interval::new(2), Pitch::D);
    assert_eq!(Pitch::B + Interval::new(1), Pitch::C);
    assert_eq!(Pitch::A + Interval::new(7), Pitch::E);
    assert_eq!(Pitch::C + Interval::new(12), Pitch::C);
    assert_eq!(Pitch::C + Interval::new(13), Pitch::C_SHARP);
    assert_eq!(Pitch::F + Interval::new(0), Pitch::F);
}

#[test]
fn adding_a_negative_interval_moves_down_and_wraps() {
    assert_eq!(Pitch::C + Interval::new(-1), Pitch::B);
    assert_eq!(Pitch::A + Interval::new(-10), Pitch::B);
    assert_eq!(Pitch::E + Interval::new(-4), Pitch::C);
    assert_eq!(Pitch::E + Interval::new(-24), Pitch::E);
}

#[test]
fn adding_the_largest_intervals_does_not_overflow() {
    assert_eq!(Pitch::B + Interval::new(i64::MAX), Pitch::F_SHARP);
    assert_eq!(Pitch::B + Interval::new(i64::MIN), Pitch::D_SHARP);
    assert_eq!(Pitch::C + Interval::new(i64::MIN), Pitch::E);
}

#[test]
fn adding_follows_the_formula() {
    for pitch in CHROMATIC {
        for semitones in -30i64..31 {
            let class = (pitch.into_byte() as i64 + semitones).rem_euclid(12);
            assert_eq!((pitch + Interval::new(semitones)).into_byte() as i64, class);
        }
    }
}

#[test]
fn subtracting_pitches_gives_a_distance_that_is_never_negative() {
    assert_eq!((Pitch::D - Pitch::C).semitones(), 2);
    assert_eq!((Pitch::C - Pitch::D).semitones(), 2);
    assert_eq!((Pitch::B - Pitch::C).semitones(), 11);
    assert_eq!((Pitch::C - Pitch::B).semitones(), 11);
    assert_eq!((Pitch::G - Pitch::G).semitones(), 0);
    for a in CHROMATIC {
        for b in CHROMATIC {
            let distance = (a.into_byte() as i64 - b.into_byte() as i64).abs();
            assert_eq!((a - b).semitones(), distance);
            assert_eq!(a - b, Interval::new(distance));
        }
    }
}

#[test]
fn intervals_keep_their_semitones() {
    assert_eq!(Interval::new(0).semitones(), 0);
    assert_eq!(Interval::new(19).semitones(), 19);
    assert_eq!(Interval::new(-5).semitones(), -5);
    assert_ne!(Interval::new(13), Interval::new(1));
}

#[test]
fn intervals_add_without_wrapping_at_the_octave() {
    assert_eq!(Interval::new(7) + Interval::new(8), Interval::new(15));
    assert_eq!(Interval::new(7) + Interval::new(-9), Interval::new(-2));
    assert_eq!((Interval::new(12) + Interval::new(12)).semitones(), 24);
}

#[test]
fn intervals_subtract_without_wrapping_at_the_octave() {
    assert_eq!(Interval::new(7) - Interval::new(8), Interval::new(-1));
    assert_eq!(Interval::new(24) - Interval::new(-3), Interval::new(27));
    assert_eq!((Interval::new(5) - Interval::new(5)).semitones(), 0);
}

#[test]
fn interval_sums_are_normalised_only_when_added_to_a_pitch() {
    let sum = Interval::new(7) + Interval::new(8);
    assert_eq!(sum.semitones(), 15);
    assert_eq!(Pitch::C + sum, Pitch::D_SHARP);
}
