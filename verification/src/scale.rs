//! The two built-in heptatonic scales and the quantisation of scale degrees.

use vstd::prelude::*;
use crate::types::MidiVal;

verus! {

/// A heptatonic scale.
#[derive(Debug, Copy, Clone, PartialEq, Eq, Structural)]
pub enum Scale {
    Major,
    Minor,
}

/// Semitone offsets of the major scale: C D E F G A B.
pub const MAJOR_SCALE: [u8; 7] = [0, 2, 4, 5, 7, 9, 11];

/// Semitone offsets of the natural minor scale: C D Ef F G Af Bf.
pub const MINOR_SCALE: [u8; 7] = [0, 2, 3, 5, 7, 8, 10];

/// The offsets of a scale as a sequence of seven semitone counts.
pub open spec fn table(scale: Scale) -> Seq<u8> {
    match scale {
        Scale::Major => seq![0u8, 2u8, 4u8, 5u8, 7u8, 9u8, 11u8],
        Scale::Minor => seq![0u8, 2u8, 3u8, 5u8, 7u8, 8u8, 10u8],
    }
}

/// The semitone offset a degree stands for: the table entry at the degree's
/// own index for the degrees 1 to 6, and no note for degree 0, which is
/// silence, and for degree 7 and above, which the tables do not reach.
pub open spec fn semitone(degree: MidiVal, scale: Scale) -> Option<MidiVal> {
    if 1 <= degree <= 6 {
        Some(table(scale)[degree as int])
    } else {
        None
    }
}

/// Quantises a scale degree to a semitone offset from the octave base.
pub fn calc_note(note: MidiVal, scale: &Scale) -> (r: Option<MidiVal>)
    ensures
        r == semitone(note, *scale),
{
    if 1 <= note && note <= 6 {
        match scale {
            Scale::Major => Some(MAJOR_SCALE[note as usize]),
            Scale::Minor => Some(MINOR_SCALE[note as usize]),
        }
    } else {
        None
    }
}

} // verus!
