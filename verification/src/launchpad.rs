//! Protocol constants and coordinate arithmetic of the grid controller.

use vstd::prelude::*;

use crate::types::MidiVal;

verus! {


/// Where a raw grid identifier lies: `Some((column, row))` with the column in
/// `0..=8` and the row in `0..=7`, or `None` when the identifier addresses no
/// button. Identifiers are row-major with sixteen slots per row, of which the
/// first nine are buttons.
pub open spec fn lp_xy(x: MidiVal) -> Option<(u8, u8)> {
    if x % 16 < 9 && x / 16 < 8 {
        Some(((x % 16) as u8, (x / 16) as u8))
    } else {
        None
    }
}

/// Decodes a raw grid identifier into `(column, row)`.
pub fn find_lp_xy(x: MidiVal) -> (r: Option<(u8, u8)>)
    ensures
        r == lp_xy(x),
{
    let nx: u8 = if x >= 16 { x % 16 } else { x };
    if nx < 9 && x / 16 < 8 {
        Some((nx, x / 16))
    } else {
        None
    }
}

/// The colour byte for a red and a green level: a bias of 12 plus the red
/// level plus sixteen times the green level when both levels are at most 3,
/// and 127 otherwise.
pub open spec fn led_color_spec(red: u8, green: u8) -> u8 {
    if red <= 3 && green <= 3 {
        (12 + red + 16 * green) as u8
    } else {
        127
    }
}

/// Computes the colour byte of an LED from its red and green levels.
pub fn led_color(red: u8, green: u8) -> (c: u8)
    ensures
        c == led_color_spec(red, green),
{
    if red <= 3 && green <= 3 {
        assert(12u8 | red | (16u8 * green) as u8 == (12 + red + 16 * green) as u8) by (bit_vector)
            requires
                red <= 3,
                green <= 3,
        ;
        12 | red | (16 * green)
    } else {
        127
    }
}

} // verus!
