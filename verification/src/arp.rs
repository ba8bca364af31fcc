//! The arpeggiator: the controller's state and its handlers.
//!
//! The pattern is 32 columns that the user edits eight at a time on the
//! grid. Four buttons of the control row select the page, the others pause,
//! play, toggle the scale and quit; the rightmost grid column selects the
//! octave. While playing, the playhead walks the columns and each sounding
//! column sends a note to the synthesiser.

use vstd::prelude::*;
use crate::arp::model::{
    led_on, lemma_events_frame, lemma_events_stuck, lemma_jobs_stuck, ArpView,
};
use crate::devices::device::{
    backlog, batch, fits, lemma_sent_push, lemma_sent_stuck, outcome, sent,
    Device, BUFFER_SIZE,
};
use crate::launchpad::{find_lp_xy, led_color};
use crate::pattern::{pattern_is_valid, ArpCol, Tracker};
use crate::scale::{calc_note, Scale};
use crate::scheduler::Scheduler;
use crate::types::{verdict, EventKind, Fault, Message, MidiRes, MidiVal, MIDI, NOTE};

pub mod model;
pub mod laws;
pub mod render;

verus! {

/// The payloads the scheduler delivers to the controller.
#[derive(Debug, Copy, Clone, PartialEq, Eq, Structural)]
pub enum Msg {
    /// Handle the button events that have arrived. Acts always.
    CheckInputs,
    /// A note tick: move playhead and sweep marker. Acts while playing.
    UpdateState,
    /// Send the note of the playhead's column. Acts while playing.
    FlushNotes,
    /// Stop the main loop. Acts always.
    Quit,
}

/// The arpeggiator: two devices, the scheduler, the pattern and the state of
/// the user interface.
pub struct Arp {
    /// The synthesiser that receives the notes.
    pub midi_out: Device,
    /// The grid controller: buttons in, LEDs out.
    pub grid_io: Device,
    pub running: bool,
    pub playing: bool,
    pub scheduler: Scheduler<Msg>,
    /// The playhead: the column that sounds next.
    pub index: usize,
    /// The page: which eight columns the grid shows.
    pub buffer_index: u8,
    pub buffer: [ArpCol; 32],
    /// The page selector's indicator.
    pub buffer_btn: Message,
    /// The play/pause indicator.
    pub pp_btn: Message,
    pub scale: Scale,
    /// The scale indicator.
    pub scale_btn: Message,
    pub octave: u8,
    /// The octave indicator.
    pub octave_btn: Message,
    pub bpm: u8,
    pub tracker: Tracker,
}

impl View for Arp {
    type V = ArpView;

    open spec fn view(&self) -> ArpView {
        ArpView {
            midi_out: self.midi_out.output@,
            midi_in: self.midi_out.input@,
            grid_out: self.grid_io.output@,
            grid_in: self.grid_io.input@,
            running: self.running,
            playing: self.playing,
            scheduler: self.scheduler@,
            index: self.index,
            buffer_index: self.buffer_index,
            buffer: self.buffer@,
            buffer_btn: self.buffer_btn,
            pp_btn: self.pp_btn,
            scale: self.scale,
            scale_btn: self.scale_btn,
            octave: self.octave,
            octave_btn: self.octave_btn,
            bpm: self.bpm,
            tracker: self.tracker,
        }
    }
}

impl Arp {
    /// An arpeggiator on the two devices: running, paused, on page 0, in
    /// the major scale, in octave 5, at 120 beats per minute, with a silent
    /// pattern and a scheduler without jobs. The devices keep what they
    /// hold.
    pub fn new(midi_out: Device, grid_io: Device) -> (a: Arp)
        ensures
            a@.wf(),
            a.midi_out == midi_out,
            a.grid_io == grid_io,
            a.running,
            !a.playing,
            a.index == 0,
            a.buffer_index == 0,
            forall|c: int| 0 <= c < 32 ==> a.buffer@[c] == (ArpCol { val: 0, note: 0 }),
            a.scale == Scale::Major,
            a.octave == 5,
            a.octave_btn == led_on(72),
            a.bpm == 120,
            a.tracker.index == 0,
            a.scheduler@.jobs.len() == 0,
            a.scheduler@.queue.len() == 0,
            a.scheduler@.tick_duration == 0,
            a.scheduler@.last_time == 0,
    {
        let buffer_btn = Message { status: MIDI, note: 104, velocity: 127, extra: 0 };
        let pp_btn = Message { status: MIDI, note: 108, velocity: led_color(3, 0), extra: 0 };
        let scale_btn = Message { status: MIDI, note: 110, velocity: led_color(1, 3), extra: 0 };
        let octave_btn = Message { status: NOTE, note: 72, velocity: 127, extra: 0 };
        Arp {
            midi_out: midi_out,
            grid_io: grid_io,
            running: true,
            playing: false,
            scheduler: Scheduler::new(),
            index: 0,
            buffer_index: 0,
            buffer: [ArpCol::new(); 32],
            buffer_btn: buffer_btn,
            pp_btn: pp_btn,
            scale: Scale::Major,
            scale_btn: scale_btn,
            octave: 5,
            octave_btn: octave_btn,
            bpm: 120,
            tracker: Tracker::new(),
        }
    }

    /// Checks at run time that the state is well formed: every handler
    /// asks for that, and every handler keeps it.
    pub fn is_valid(&self) -> (b: bool)
        ensures
            b == self@.wf(),
    {
        if self.index >= 32 || self.buffer_index >= 4 || self.octave > 7 {
            return false;
        }
        let page = Message { status: MIDI, note: 104 + self.buffer_index, velocity: 127, extra: 0 };
        let play_pause = if self.playing {
            Message { status: MIDI, note: 109, velocity: led_color(0, 3), extra: 0 }
        } else {
            Message { status: MIDI, note: 108, velocity: led_color(3, 0), extra: 0 }
        };
        let scale = match self.scale {
            Scale::Major => Message { status: MIDI, note: 110, velocity: led_color(1, 3), extra: 0 },
            Scale::Minor => Message { status: MIDI, note: 110, velocity: led_color(3, 1), extra: 0 },
        };
        let octave = Message { status: NOTE, note: self.octave_btn.note, velocity: 127, extra: 0 };
        self.buffer_btn == page
            && self.pp_btn == play_pause
            && self.scale_btn == scale
            && self.octave_btn == octave
            && self.octave_btn.note % 16 == 8
            && self.octave_btn.note < 128
            && pattern_is_valid(&self.buffer)
            && self.tracker.is_valid()
            && self.scheduler.is_valid()
    }

    /// Stops the main loop: `running` becomes `false`.
    pub fn quit(&mut self) -> (r: MidiRes)
        ensures
            final(self)@ == old(self)@.quit(),
            r == Ok::<(), Fault>(()),
    {
        self.running = false;
        Ok(())
    }

    /// Writes message `k` of the list `all` that a handler is writing to the
    /// grid, the messages before it having been written to the queue that
    /// held `out` when the handler began.
    fn put(
        &mut self,
        m: Message,
        Ghost(all): Ghost<Seq<Message>>,
        Ghost(k): Ghost<int>,
        Ghost(out): Ghost<Seq<Message>>,
    ) -> (r: MidiRes)
        requires
            0 <= k < all.len(),
            all[k] == m,
            fits(out, all.take(k)),
            old(self)@.grid_out == sent(out, all.take(k)),
        ensures
            final(self)@ == (ArpView { grid_out: final(self)@.grid_out, ..old(self)@ }),
            r is Ok ==> fits(out, all.take(k + 1)) && final(self)@.grid_out == sent(
                out,
                all.take(k + 1),
            ),
            r is Err ==> r == Err::<(), Fault>(Fault::Transport) && !fits(out, all)
                && final(self)@.grid_out == sent(out, all),
    {
        proof {
            lemma_sent_push(out, all.take(k), m);
            if !fits(out, all.take(k + 1)) {
                lemma_sent_stuck(out, all, k + 1);
            }
        }
        self.grid_io.write_message(m)
    }

    /// Starts playing and shows it: the pause LED goes off and the play LED
    /// on. Does nothing while already playing.
    pub fn play(&mut self) -> (r: MidiRes)
        requires
            old(self)@.wf(),
        ensures
            final(self)@.wf(),
            final(self)@ == old(self)@.play(),
            r == outcome(old(self)@.grid_out, old(self)@.play_msgs()),
    {
        let ghost all = self@.play_msgs();
        let ghost out = self@.grid_out;
        if !self.playing {
            self.playing = true;
            self.pp_btn.note = 109;
            self.pp_btn.velocity = led_color(0, 3);
            self.put(
                Message { status: MIDI, note: 108, velocity: 0, extra: 0 },
                Ghost(all),
                Ghost(0),
                Ghost(out),
            )?;
            self.put(self.pp_btn, Ghost(all), Ghost(1), Ghost(out))?;
            assert(all.take(2) =~= all);
        }
        Ok(())
    }

    /// Stops playing and shows it: the play LED goes off and the pause LED
    /// on. Does nothing while already paused.
    pub fn pause(&mut self) -> (r: MidiRes)
        requires
            old(self)@.wf(),
        ensures
            final(self)@.wf(),
            final(self)@ == old(self)@.pause(),
            r == outcome(old(self)@.grid_out, old(self)@.pause_msgs()),
    {
        let ghost all = self@.pause_msgs();
        let ghost out = self@.grid_out;
        if self.playing {
            self.playing = false;
            self.pp_btn.note = 108;
            self.pp_btn.velocity = led_color(3, 0);
            self.put(
                Message { status: MIDI, note: 109, velocity: 0, extra: 0 },
                Ghost(all),
                Ghost(0),
                Ghost(out),
            )?;
            self.put(self.pp_btn, Ghost(all), Ghost(1), Ghost(out))?;
            assert(all.take(2) =~= all);
        }
        Ok(())
    }

    /// Switches to the other scale and shows it on the scale indicator.
    pub fn invert_scale(&mut self) -> (r: MidiRes)
        requires
            old(self)@.wf(),
        ensures
            final(self)@.wf(),
            final(self)@ == old(self)@.invert_scale(),
            r == outcome(old(self)@.grid_out, old(self)@.invert_scale_msgs()),
    {
        let ghost all = self@.invert_scale_msgs();
        let ghost out = self@.grid_out;
        match self.scale {
            Scale::Major => {
                self.scale = Scale::Minor;
                self.scale_btn.velocity = led_color(3, 1);
            },
            _ => {
                self.scale = Scale::Major;
                self.scale_btn.velocity = led_color(1, 3);
            },
        }
        self.put(self.scale_btn, Ghost(all), Ghost(0), Ghost(out))?;
        assert(all.take(1) =~= all);
        Ok(())
    }

    /// Handles a press of the control-row button `note`: the first four
    /// buttons select a page and redraw the board when the page changes,
    /// the next four pause, play, toggle the scale and quit. Any other
    /// identifier is ignored.
    pub fn top_row_dispatch(&mut self, note: MidiVal) -> (r: MidiRes)
        requires
            old(self)@.wf(),
        ensures
            final(self)@.wf(),
            final(self)@ == old(self)@.top_row(note),
            r == outcome(old(self)@.grid_out, old(self)@.top_row_msgs(note)),
    {
        if note < 104 {
            return Ok(());
        }
        let idx = note - 104;
        if idx <= 3 {
            if idx != self.buffer_index {
                self.buffer_index = idx;
                self.buffer_btn.note = note;
                self.render_ui()
            } else {
                Ok(())
            }
        } else if idx == 4 {
            self.pause()
        } else if idx == 5 {
            self.play()
        } else if idx == 6 {
            self.invert_scale()
        } else if idx == 7 {
            self.quit()
        } else {
            Ok(())
        }
    }

    /// Handles a press of the grid button `note`. On the octave strip it
    /// selects the octave and moves the octave LED; on the pattern it
    /// stores the degree of the pressed row in the pressed column and moves
    /// the column's LED. An identifier that addresses no button is ignored.
    pub fn grid_button_dispatch(&mut self, note: MidiVal) -> (r: MidiRes)
        requires
            old(self)@.wf(),
        ensures
            final(self)@.wf(),
            final(self)@ == old(self)@.grid(note),
            r == outcome(old(self)@.grid_out, old(self)@.grid_msgs(note)),
    {
        let ghost all = self@.grid_msgs(note);
        let ghost out = self@.grid_out;
        if let Some((x, y)) = find_lp_xy(note) {
            if x == 8 {
                let previous = self.octave_btn.note;
                self.octave = 7 - y;
                self.octave_btn.note = note;
                self.put(
                    Message { status: NOTE, note: previous, velocity: 0, extra: 0 },
                    Ghost(all),
                    Ghost(0),
                    Ghost(out),
                )?;
                self.put(self.octave_btn, Ghost(all), Ghost(1), Ghost(out))?;
                assert(all.take(2) =~= all);
                return Ok(());
            }
            let offset = ((self.buffer_index * 8) + x) as usize;
            let new_val = 7 - y;
            let column = self.buffer[offset];
            if column.val != new_val {
                self.buffer[offset] = ArpCol { val: new_val, note: note };
                let ghost mut k: int = 0;
                if column.val != 0 {
                    self.put(
                        Message { status: NOTE, note: column.note, velocity: 0, extra: 0 },
                        Ghost(all),
                        Ghost(0),
                        Ghost(out),
                    )?;
                    proof {
                        k = 1;
                    }
                }
                if new_val != 0 {
                    self.put(
                        Message { status: NOTE, note: note, velocity: 127, extra: 0 },
                        Ghost(all),
                        Ghost(k),
                        Ghost(out),
                    )?;
                    proof {
                        k = k + 1;
                    }
                }
                assert(all.take(k) =~= all);
            }
        }
        Ok(())
    }

    /// Handles a note tick: moves the playhead on one column if the
    /// controller plays, and moves the sweep marker on one step. The
    /// marker's old LED goes off; its new LED goes on if the marker then
    /// lies on the page.
    pub fn update_state(&mut self) -> (r: MidiRes)
        requires
            old(self)@.wf(),
        ensures
            final(self)@.wf(),
            final(self)@ == old(self)@.update_state(),
            r == outcome(old(self)@.grid_out, old(self)@.update_state_msgs()),
    {
        let ghost all = self@.update_state_msgs();
        let ghost out = self@.grid_out;
        if self.playing {
            self.index += 1;
            if self.index == 32 {
                self.index = 0;
            }
        }
        let previous = self.tracker.btn.note;
        self.tracker.update();
        self.tracker.move_right();
        self.put(
            Message { status: NOTE, note: previous, velocity: 0, extra: 0 },
            Ghost(all),
            Ghost(0),
            Ghost(out),
        )?;
        if self.tracker.in_range(self.buffer_index) {
            self.put(self.tracker.btn, Ghost(all), Ghost(1), Ghost(out))?;
            assert(all.take(2) =~= all);
        } else {
            assert(all.take(1) =~= all);
        }
        Ok(())
    }

    /// Sends the note of the playhead's column to the synthesiser, if the
    /// column sounds: its degree quantised through the scale, raised by
    /// twelve semitones per octave.
    pub fn flush_notes(&mut self) -> (r: MidiRes)
        requires
            old(self)@.wf(),
        ensures
            final(self)@.wf(),
            final(self)@ == old(self)@.flush_notes(),
            r == outcome(old(self)@.midi_out, old(self)@.flush_msgs()),
    {
        let col = self.buffer[self.index];
        if col.val > 0 {
            if let Some(base_note) = calc_note(col.val, &self.scale) {
                return self.midi_out.write_message(
                    Message {
                        status: NOTE,
                        note: base_note + (self.octave * 12),
                        velocity: 127,
                        extra: 1,
                    },
                );
            }
        }
        Ok(())
    }

    /// Takes a batch of at most `BUFFER_SIZE` events out of the grid's
    /// input queue and handles them in arrival order. Only presses act: an
    /// event whose velocity is not 127 is skipped. A fault ends the batch.
    pub fn check_inputs(&mut self) -> (r: MidiRes)
        requires
            old(self)@.wf(),
        ensures
            final(self)@.wf(),
            final(self)@ == old(self)@.check_inputs().0,
            r == verdict(old(self)@.check_inputs().1),
    {
        let evts = self.grid_io.read_n(BUFFER_SIZE);
        let ghost start = self@;
        let n = evts.len();
        let mut i: usize = 0;
        while i < n
            invariant
                i <= n,
                n == evts@.len(),
                start.run_events(evts@, n as int) == old(self)@.check_inputs(),
                self@.wf(),
                start.run_events(evts@, i as int) == (self@, true),
            decreases n - i,
        {
            let e = evts[i];
            if e.velocity == 127 {
                let res = match e.kind {
                    EventKind::ControlRow => self.top_row_dispatch(e.note),
                    EventKind::GridCell => self.grid_button_dispatch(e.note),
                };
                if res.is_err() {
                    proof {
                        lemma_events_stuck(start, evts@, i + 1, n as int);
                    }
                    return res;
                }
            }
            i += 1;
        }
        Ok(())
    }

    /// Whether the scheduler's queue holds a request to check the inputs,
    /// so that the caller should poll the hardware before the next cycle.
    pub fn inputs_due(&self) -> (b: bool)
        ensures
            b == self@.scheduler.queue.contains(Msg::CheckInputs),
    {
        let queue = self.scheduler.events();
        let mut i: usize = 0;
        while i < queue.len()
            invariant
                i <= queue@.len(),
                queue@ == self@.scheduler.queue,
                forall|k: int| 0 <= k < i ==> queue@[k] != Msg::CheckInputs,
            decreases queue@.len() - i,
        {
            if queue[i] == Msg::CheckInputs {
                return true;
            }
            i += 1;
        }
        false
    }

    /// Runs one cycle: processes the payloads in the scheduler's queue in
    /// order and empties the queue. Quitting and checking inputs happen
    /// always, the note tick and the flush of notes only while the
    /// controller plays. A fault ends the cycle and leaves the queue.
    pub fn update(&mut self) -> (r: MidiRes)
        requires
            old(self)@.wf(),
        ensures
            final(self)@.wf(),
            final(self)@ == old(self)@.update().0,
            r == verdict(old(self)@.update().1),
    {
        let ghost start = self@;
        let ghost queue = start.scheduler.queue;
        if self.scheduler.has_events() {
            let mut i: usize = 0;
            while i < self.scheduler.events().len()
                invariant
                    start == old(self)@,
                    queue == start.scheduler.queue,
                    i <= queue.len(),
                    self@.wf(),
                    self@.scheduler == start.scheduler,
                    start.run_jobs(queue, i as int) == (self@, true),
                decreases queue.len() - i,
            {
                let m = self.scheduler.events()[i];
                let ghost before = self@;
                proof {
                    lemma_events_frame(
                        ArpView {
                            grid_in: backlog(before.grid_in, BUFFER_SIZE as nat),
                            ..before
                        },
                        batch(before.grid_in, BUFFER_SIZE as nat),
                        batch(before.grid_in, BUFFER_SIZE as nat).len() as int,
                    );
                }
                let res = match (m, self.playing) {
                    (Msg::Quit, _) => self.quit(),
                    (Msg::CheckInputs, _) => self.check_inputs(),
                    (Msg::UpdateState, true) => self.update_state(),
                    (Msg::FlushNotes, true) => self.flush_notes(),
                    _ => Ok(()),
                };
                if res.is_err() {
                    proof {
                        lemma_jobs_stuck(start, queue, i + 1, queue.len() as int);
                    }
                    return res;
                }
                i += 1;
            }
            self.scheduler.clear_queue();
        } else {
            assert(queue =~= Seq::empty());
        }
        Ok(())
    }
}

} // verus!
