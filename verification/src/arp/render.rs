//! The renderer: the wipe of the board and the full repaint.
//!
//! A repaint redraws every lasting element of the board from the state. It
//! runs at startup and when the page changes; everything else updates
//! single LEDs.

use vstd::prelude::*;
use crate::arp::model::{lemma_cells_grow, reset, ArpView};
use crate::arp::Arp;
use crate::devices::device::{fits, outcome, sent};
use crate::types::{Message, MidiRes, MIDI, NOTE};

verus! {

impl Arp {
    /// Wipes every LED of the board.
    pub fn clear_board(&mut self) -> (r: MidiRes)
        ensures
            final(self)@ == old(self)@.clear_board(),
            r == outcome(old(self)@.grid_out, seq![reset()]),
    {
        self.grid_io.write_message(Message { status: MIDI, note: 0, velocity: 0, extra: 0 })
    }

    /// Redraws every element of the board: wipes it, then writes the page
    /// selector, play/pause, the scale and the octave indicator, the sweep
    /// LED if the marker lies on the page, and the lit cells of the page.
    pub fn render_ui(&mut self) -> (r: MidiRes)
        requires
            old(self)@.wf(),
        ensures
            final(self)@.wf(),
            final(self)@ == old(self)@.render_ui(),
            r == outcome(old(self)@.grid_out, old(self)@.repaint()),
    {
        let ghost start = self@;
        let ghost all = start.repaint();
        let ghost out = start.grid_out;
        self.put(
            Message { status: MIDI, note: 0, velocity: 0, extra: 0 },
            Ghost(all),
            Ghost(0),
            Ghost(out),
        )?;
        self.put(self.buffer_btn, Ghost(all), Ghost(1), Ghost(out))?;
        self.put(self.pp_btn, Ghost(all), Ghost(2), Ghost(out))?;
        self.put(self.scale_btn, Ghost(all), Ghost(3), Ghost(out))?;
        self.put(self.octave_btn, Ghost(all), Ghost(4), Ghost(out))?;
        if self.tracker.in_range(self.buffer_index) {
            self.put(self.tracker.btn, Ghost(all), Ghost(5), Ghost(out))?;
        }
        let ghost mut k: int = 5 + start.sweep().len() as int;
        let mut c: u8 = 0;
        while c < 8
            invariant
                c <= 8,
                start == old(self)@,
                start.wf(),
                out == start.grid_out,
                all == start.repaint(),
                self@ == (ArpView { grid_out: self@.grid_out, ..start }),
                k == 5 + start.sweep().len() + start.cells(c as int).len(),
                all.take(k) == start.indicators() + start.sweep() + start.cells(c as int),
                fits(out, all.take(k)),
                self@.grid_out == sent(out, all.take(k)),
            decreases 8 - c,
        {
            let index = (self.buffer_index * 8 + c) as usize;
            let col = self.buffer[index];
            proof {
                lemma_cells_grow(start, c + 1, 8);
            }
            if col.val > 0 {
                self.put(
                    Message { status: NOTE, note: col.note, velocity: 127, extra: 0 },
                    Ghost(all),
                    Ghost(k),
                    Ghost(out),
                )?;
                proof {
                    assert(all.take(k + 1) =~= start.indicators() + start.sweep() + start.cells(
                        c + 1,
                    ));
                    k = k + 1;
                }
            }
            c += 1;
        }
        Ok(())
    }
}

} // verus!
