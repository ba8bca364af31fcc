//! The pattern store and the sweep marker.
//!
//! A pattern is 32 columns. Each column holds a scale degree and the raw
//! identifier of the grid button that is lit for it, so that the LED can be
//! turned off again. The sweep marker is the LED that runs along the bottom
//! row of the grid while the sequencer plays.

use vstd::prelude::*;
use crate::launchpad::{find_lp_xy, lp_xy};
use crate::types::{msg, Message, NOTE};

verus! {

/// Number of columns in a pattern.
pub const COLUMNS: usize = 32;

/// Number of columns on one page of the grid.
pub const PAGE_WIDTH: usize = 8;

/// Raw identifier of the leftmost button of the bottom row.
pub const SWEEP_BASE: u8 = 112;

/// One past the raw identifier of the last pattern button of the bottom row.
pub const SWEEP_END: u8 = 120;

/// One column of the pattern: `val` is the scale degree, 0 for silence and
/// 1 to 7 for a step of the scale; `note` is the raw identifier of the
/// button pressed for it.
#[derive(Debug, Copy, Clone, PartialEq, Eq, Structural)]
pub struct ArpCol {
    pub val: u8,
    pub note: u8,
}

impl ArpCol {
    /// Degree and button belong together: the degree is at most 7, and a
    /// sounding column at place `column` of the pattern remembers the button
    /// in its own grid column and in the row of its degree.
    pub open spec fn wf_at(self, column: int) -> bool {
        &&& self.val <= 7
        &&& self.val != 0 ==> lp_xy(self.note) == Some(((column % 8) as u8, (7 - self.val) as u8))
    }

    /// A silent column.
    pub fn new() -> (c: ArpCol)
        ensures
            c == (ArpCol { val: 0, note: 0 }),
    {
        ArpCol { val: 0, note: 0 }
    }

    /// Checks at run time that degree and button belong together for a
    /// column at place `column` of the pattern.
    pub fn is_valid_at(&self, column: usize) -> (b: bool)
        ensures
            b == self.wf_at(column as int),
    {
        if self.val > 7 {
            false
        } else if self.val == 0 {
            true
        } else {
            match find_lp_xy(self.note) {
                Some((x, y)) => x as usize == column % 8 && y == 7 - self.val,
                None => false,
            }
        }
    }
}

/// Checks at run time that every column of a pattern pairs its degree with
/// its button.
pub fn pattern_is_valid(buffer: &[ArpCol; 32]) -> (b: bool)
    ensures
        b == pattern_wf(buffer@),
{
    let mut c: usize = 0;
    while c < 32
        invariant
            c <= 32,
            buffer@.len() == 32,
            forall|k: int| 0 <= k < c ==> (#[trigger] buffer@[k]).wf_at(k),
        decreases 32 - c,
    {
        if !buffer[c].is_valid_at(c) {
            return false;
        }
        c += 1;
    }
    true
}

/// Every column of a 32-column pattern pairs its degree with its button.
pub open spec fn pattern_wf(buffer: Seq<ArpCol>) -> bool {
    &&& buffer.len() == COLUMNS
    &&& forall|c: int| 0 <= c < buffer.len() ==> (#[trigger] buffer[c]).wf_at(c)
}

/// The sweep marker: `index` is its place among the 32 columns, `btn` the
/// message that lights its LED, which runs over the eight buttons of the
/// bottom row.
#[derive(Debug, Copy, Clone, PartialEq, Eq, Structural)]
pub struct Tracker {
    pub index: u8,
    pub btn: Message,
}

impl Tracker {
    /// The place is one of the 32 columns and the LED is the button of the
    /// bottom row under that column.
    pub open spec fn wf(self) -> bool {
        &&& self.index < COLUMNS
        &&& self.btn == msg(NOTE, (SWEEP_BASE + self.index % 8) as u8, 127, 0)
    }

    /// Whether the marker lies on the page `buffer_index`, that is, among
    /// the eight columns from `8 * buffer_index` on.
    pub open spec fn visible(self, buffer_index: u8) -> bool {
        buffer_index * 8 <= self.index <= buffer_index * 8 + 7
    }

    /// The place after `index`, wrapping from 31 to 0.
    pub open spec fn next_index(index: u8) -> u8 {
        if index + 1 == COLUMNS {
            0
        } else {
            (index + 1) as u8
        }
    }

    /// The bottom-row button to the right of `note`, wrapping from the
    /// eighth back to the first.
    pub open spec fn next_note(note: u8) -> u8 {
        if note + 1 == SWEEP_END {
            SWEEP_BASE
        } else {
            (note + 1) as u8
        }
    }

    /// The marker one step on: both its place and its LED move right.
    pub open spec fn stepped(self) -> Tracker {
        Tracker {
            index: Self::next_index(self.index),
            btn: Message { note: Self::next_note(self.btn.note), ..self.btn },
        }
    }

    /// Checks at run time that place and LED belong together.
    pub fn is_valid(&self) -> (b: bool)
        ensures
            b == self.wf(),
    {
        self.index < 32 && self.btn == (Message {
            status: NOTE,
            note: SWEEP_BASE + self.index % 8,
            velocity: 127,
            extra: 0,
        })
    }

    /// The marker at column 0.
    pub fn new() -> (t: Tracker)
        ensures
            t.wf(),
            t.index == 0,
    {
        Tracker { index: 0, btn: Message { status: NOTE, note: 112, velocity: 127, extra: 0 } }
    }

    /// Whether the marker lies on the page `buffer_index`.
    pub fn in_range(&self, buffer_index: u8) -> (b: bool)
        ensures
            b == self.visible(buffer_index),
    {
        let bmin: u16 = buffer_index as u16 * 8;
        let index: u16 = self.index as u16;
        (bmin <= index) && (index <= (bmin + 7))
    }

    /// Moves the place one column on.
    pub fn update(&mut self)
        requires
            old(self).index < COLUMNS,
        ensures
            *final(self) == (Tracker { index: Self::next_index(old(self).index), ..*old(self) }),
    {
        self.index += 1;
        if self.index == 32 {
            self.index = 0;
        }
    }

    /// Moves the LED one button to the right.
    pub fn move_right(&mut self)
        requires
            old(self).btn.note < SWEEP_END,
        ensures
            *final(self) == (Tracker {
                btn: Message { note: Self::next_note(old(self).btn.note), ..old(self).btn },
                ..*old(self)
            }),
    {
        self.btn.note += 1;
        if self.btn.note == 120 {
            self.btn.note = 112;
        }
    }
}

} // verus!
