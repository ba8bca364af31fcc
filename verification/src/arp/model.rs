//! The controller as a mathematical state machine.
//!
//! `ArpView` is the whole state as plain values, the message queues of the
//! two devices included. Every handler of the controller is a function from
//! one such state to the next. A handler first changes the logical state
//! and then writes its messages in order; a write that finds the queue full
//! ends the handler with a transport fault and leaves the state changed.

use vstd::prelude::*;
use crate::arp::Msg;
use crate::devices::device::{backlog, batch, fits, sent, BUFFER_SIZE};
use crate::launchpad::{led_color_spec, lp_xy};
use crate::pattern::{pattern_wf, ArpCol, Tracker, COLUMNS};
use crate::scale::{semitone, Scale};
use crate::scheduler::{due, jobs_wf, ticked, SchedulerView};
use crate::types::{msg, Event, EventKind, Message, MIDI, NOTE};

verus! {

/// Raw identifier of the first button of the control row.
pub const TOP_ROW: u8 = 104;

/// Grid column of the octave strip.
pub const OCTAVE_COLUMN: u8 = 8;

/// The state of the controller as mathematical values.
pub struct ArpView {
    /// Notes written to the synthesiser and not yet transmitted.
    pub midi_out: Seq<Message>,
    /// Events that arrived from the synthesiser; the controller reads none.
    pub midi_in: Seq<Event>,
    /// LED messages written to the grid and not yet transmitted.
    pub grid_out: Seq<Message>,
    /// Button events that arrived from the grid and were not handled yet.
    pub grid_in: Seq<Event>,
    pub running: bool,
    pub playing: bool,
    pub scheduler: SchedulerView<Msg>,
    /// The playhead: the column that sounds next.
    pub index: usize,
    /// The page: which eight columns the grid shows.
    pub buffer_index: u8,
    pub buffer: Seq<ArpCol>,
    pub buffer_btn: Message,
    pub pp_btn: Message,
    pub scale: Scale,
    pub scale_btn: Message,
    pub octave: u8,
    pub octave_btn: Message,
    pub bpm: u8,
    pub tracker: Tracker,
}

/// The message that lights the grid button `note`.
pub open spec fn led_on(note: u8) -> Message {
    msg(NOTE, note, 127, 0)
}

/// The message that turns the grid button `note` off.
pub open spec fn led_off(note: u8) -> Message {
    msg(NOTE, note, 0, 0)
}

/// The message that wipes every LED of the controller.
pub open spec fn reset() -> Message {
    msg(MIDI, 0, 0, 0)
}

/// The indicator of the page selector when `page` is shown.
pub open spec fn page_btn(page: u8) -> Message {
    msg(MIDI, (TOP_ROW + page) as u8, 127, 0)
}

/// The play/pause indicator: the play button in green while playing, the
/// pause button in red while paused.
pub open spec fn pp_btn(playing: bool) -> Message {
    if playing {
        msg(MIDI, 109, led_color_spec(0, 3), 0)
    } else {
        msg(MIDI, 108, led_color_spec(3, 0), 0)
    }
}

/// The scale indicator: mostly green for major, mostly red for minor.
pub open spec fn scale_btn(scale: Scale) -> Message {
    match scale {
        Scale::Major => msg(MIDI, 110, led_color_spec(1, 3), 0),
        Scale::Minor => msg(MIDI, 110, led_color_spec(3, 1), 0),
    }
}

/// The other scale.
pub open spec fn inverted(scale: Scale) -> Scale {
    match scale {
        Scale::Major => Scale::Minor,
        Scale::Minor => Scale::Major,
    }
}

/// The column after `index`, wrapping from 31 to 0.
pub open spec fn next_column(index: usize) -> usize {
    if index + 1 == COLUMNS {
        0
    } else {
        (index + 1) as usize
    }
}

impl ArpView {
    /// The state is one the controller can be in: counters in range, the
    /// pattern's degrees paired with their buttons, every indicator showing
    /// the state it stands for, and the scheduler's jobs well formed.
    pub open spec fn wf(self) -> bool {
        &&& self.index < COLUMNS
        &&& self.buffer_index < 4
        &&& pattern_wf(self.buffer)
        &&& self.buffer_btn == page_btn(self.buffer_index)
        &&& self.pp_btn == pp_btn(self.playing)
        &&& self.scale_btn == scale_btn(self.scale)
        &&& self.octave <= 7
        &&& self.octave_btn == led_on(self.octave_btn.note)
        &&& self.octave_btn.note % 16 == OCTAVE_COLUMN
        &&& self.octave_btn.note < 128
        &&& self.tracker.wf()
        &&& jobs_wf(self.scheduler.jobs)
    }

    /// The state after writing `msgs` to the grid.
    pub open spec fn emit(self, msgs: Seq<Message>) -> ArpView {
        ArpView { grid_out: sent(self.grid_out, msgs), ..self }
    }

    /// The state after the quit button: the controller stops running.
    pub open spec fn quit(self) -> ArpView {
        ArpView { running: false, ..self }
    }

    /// What starting to play writes: the pause LED off, the play LED on.
    /// Nothing when already playing.
    pub open spec fn play_msgs(self) -> Seq<Message> {
        if self.playing {
            Seq::empty()
        } else {
            seq![msg(MIDI, 108, 0, 0), pp_btn(true)]
        }
    }

    /// The state after the play button.
    pub open spec fn play(self) -> ArpView {
        if self.playing {
            self
        } else {
            ArpView { playing: true, pp_btn: pp_btn(true), ..self }.emit(self.play_msgs())
        }
    }

    /// What pausing writes: the play LED off, the pause LED on. Nothing when
    /// already paused.
    pub open spec fn pause_msgs(self) -> Seq<Message> {
        if self.playing {
            seq![msg(MIDI, 109, 0, 0), pp_btn(false)]
        } else {
            Seq::empty()
        }
    }

    /// The state after the pause button.
    pub open spec fn pause(self) -> ArpView {
        if self.playing {
            ArpView { playing: false, pp_btn: pp_btn(false), ..self }.emit(self.pause_msgs())
        } else {
            self
        }
    }

    /// What toggling the scale writes: the indicator in its new colour.
    pub open spec fn invert_scale_msgs(self) -> Seq<Message> {
        seq![scale_btn(inverted(self.scale))]
    }

    /// The state after the scale button.
    pub open spec fn invert_scale(self) -> ArpView {
        ArpView {
            scale: inverted(self.scale),
            scale_btn: scale_btn(inverted(self.scale)),
            ..self
        }.emit(self.invert_scale_msgs())
    }

    /// The state after wiping the board.
    pub open spec fn clear_board(self) -> ArpView {
        self.emit(seq![reset()])
    }

    /// The lit pattern cells among the first `n` columns of the page, from
    /// left to right.
    pub open spec fn cells(self, n: int) -> Seq<Message>
        decreases n,
    {
        if n <= 0 {
            Seq::empty()
        } else {
            let col = self.buffer[self.buffer_index * 8 + n - 1];
            if col.val > 0 {
                self.cells(n - 1).push(led_on(col.note))
            } else {
                self.cells(n - 1)
            }
        }
    }

    /// The sweep LED if the marker lies on the page, and nothing otherwise.
    pub open spec fn sweep(self) -> Seq<Message> {
        if self.tracker.visible(self.buffer_index) {
            seq![self.tracker.btn]
        } else {
            Seq::empty()
        }
    }

    /// The four indicators behind a wipe of the board.
    pub open spec fn indicators(self) -> Seq<Message> {
        seq![reset(), self.buffer_btn, self.pp_btn, self.scale_btn, self.octave_btn]
    }

    /// A full repaint: the wipe, the page selector, play/pause, the scale
    /// and the octave indicator, the sweep LED if it lies on the page, and
    /// the lit cells of the page's eight columns.
    pub open spec fn repaint(self) -> Seq<Message> {
        self.indicators() + self.sweep() + self.cells(8)
    }

    /// The state after a full repaint.
    pub open spec fn render_ui(self) -> ArpView {
        self.emit(self.repaint())
    }

    /// The state with `page` selected, before anything is drawn.
    pub open spec fn paged(self, page: u8) -> ArpView {
        ArpView { buffer_index: page, buffer_btn: page_btn(page), ..self }
    }

    /// What a press of the control-row button `note` writes.
    pub open spec fn top_row_msgs(self, note: u8) -> Seq<Message> {
        if note < TOP_ROW {
            Seq::empty()
        } else if note - TOP_ROW <= 3 {
            if note - TOP_ROW != self.buffer_index {
                self.paged((note - TOP_ROW) as u8).repaint()
            } else {
                Seq::empty()
            }
        } else if note - TOP_ROW == 4 {
            self.pause_msgs()
        } else if note - TOP_ROW == 5 {
            self.play_msgs()
        } else if note - TOP_ROW == 6 {
            self.invert_scale_msgs()
        } else {
            Seq::empty()
        }
    }

    /// The state after a press of the control-row button `note`: the first
    /// four buttons select a page and repaint when the page changes, the
    /// next four pause, play, toggle the scale and quit. Any other
    /// identifier changes nothing.
    pub open spec fn top_row(self, note: u8) -> ArpView {
        if note < TOP_ROW {
            self
        } else if note - TOP_ROW <= 3 {
            if note - TOP_ROW != self.buffer_index {
                self.paged((note - TOP_ROW) as u8).render_ui()
            } else {
                self
            }
        } else if note - TOP_ROW == 4 {
            self.pause()
        } else if note - TOP_ROW == 5 {
            self.play()
        } else if note - TOP_ROW == 6 {
            self.invert_scale()
        } else if note - TOP_ROW == 7 {
            self.quit()
        } else {
            self
        }
    }

    /// The pattern column that the grid column `x` of the page stands for.
    pub open spec fn column_at(self, x: u8) -> int {
        self.buffer_index * 8 + x
    }

    /// What a press of the grid button `note` writes. On the octave strip:
    /// the old octave LED off, the new one on. On the pattern: the column's
    /// old LED off if it sounded, the new LED on if it sounds now; nothing
    /// when the degree stays.
    pub open spec fn grid_msgs(self, note: u8) -> Seq<Message> {
        match lp_xy(note) {
            None => Seq::empty(),
            Some((x, y)) => {
                if x == OCTAVE_COLUMN {
                    seq![led_off(self.octave_btn.note), Message { note: note, ..self.octave_btn }]
                } else {
                    let col = self.buffer[self.column_at(x)];
                    if col.val == 7 - y {
                        Seq::empty()
                    } else if col.val != 0 && 7 - y != 0 {
                        seq![led_off(col.note), led_on(note)]
                    } else if col.val != 0 {
                        seq![led_off(col.note)]
                    } else {
                        seq![led_on(note)]
                    }
                }
            },
        }
    }

    /// The state after a press of the grid button `note`. A button in row
    /// `y` of the octave strip selects octave `7 - y`; a button in row `y`
    /// of a pattern column stores degree `7 - y` and the button in that
    /// column. An identifier that addresses no button changes nothing.
    pub open spec fn grid(self, note: u8) -> ArpView {
        match lp_xy(note) {
            None => self,
            Some((x, y)) => {
                if x == OCTAVE_COLUMN {
                    ArpView {
                        octave: (7 - y) as u8,
                        octave_btn: Message { note: note, ..self.octave_btn },
                        ..self
                    }.emit(self.grid_msgs(note))
                } else if self.buffer[self.column_at(x)].val == 7 - y {
                    self
                } else {
                    ArpView {
                        buffer: self.buffer.update(
                            self.column_at(x),
                            ArpCol { val: (7 - y) as u8, note: note },
                        ),
                        ..self
                    }.emit(self.grid_msgs(note))
                }
            },
        }
    }

    /// What an inbound event writes: nothing unless it is a press, that is,
    /// unless its velocity is 127.
    pub open spec fn event_msgs(self, e: Event) -> Seq<Message> {
        if e.velocity != 127 {
            Seq::empty()
        } else {
            match e.kind {
                EventKind::ControlRow => self.top_row_msgs(e.note),
                EventKind::GridCell => self.grid_msgs(e.note),
            }
        }
    }

    /// The state after an inbound event. Only a press acts.
    pub open spec fn event(self, e: Event) -> ArpView {
        if e.velocity != 127 {
            self
        } else {
            match e.kind {
                EventKind::ControlRow => self.top_row(e.note),
                EventKind::GridCell => self.grid(e.note),
            }
        }
    }

    /// The state after handling the first `n` of `events` in order, and
    /// whether every write succeeded. The first event whose writes do not
    /// all fit is the last one handled.
    pub open spec fn run_events(self, events: Seq<Event>, n: int) -> (ArpView, bool)
        decreases n,
    {
        if n <= 0 {
            (self, true)
        } else {
            let (before, ok) = self.run_events(events, n - 1);
            if ok {
                (
                    before.event(events[n - 1]),
                    fits(before.grid_out, before.event_msgs(events[n - 1])),
                )
            } else {
                (before, false)
            }
        }
    }

    /// The state after checking the inputs, and whether every write
    /// succeeded: a batch of at most `BUFFER_SIZE` events leaves the input
    /// queue and is handled in arrival order.
    pub open spec fn check_inputs(self) -> (ArpView, bool) {
        let events = batch(self.grid_in, BUFFER_SIZE as nat);
        ArpView { grid_in: backlog(self.grid_in, BUFFER_SIZE as nat), ..self }.run_events(
            events,
            events.len() as int,
        )
    }

    /// What a step of the sweep writes: the marker's old LED off, and its
    /// new LED on if the marker then lies on the page.
    pub open spec fn update_state_msgs(self) -> Seq<Message> {
        if self.tracker.stepped().visible(self.buffer_index) {
            seq![led_off(self.tracker.btn.note), self.tracker.stepped().btn]
        } else {
            seq![led_off(self.tracker.btn.note)]
        }
    }

    /// The state after a note tick: the playhead moves on one column if the
    /// controller plays, and the sweep marker moves on one step.
    pub open spec fn update_state(self) -> ArpView {
        ArpView {
            index: if self.playing {
                next_column(self.index)
            } else {
                self.index
            },
            tracker: self.tracker.stepped(),
            ..self
        }.emit(self.update_state_msgs())
    }

    /// The note the playhead's column sounds: its degree quantised through
    /// the scale, raised by twelve semitones per octave. Nothing for a
    /// silent column and for a degree the scale has no entry for.
    pub open spec fn flush_msgs(self) -> Seq<Message> {
        let col = self.buffer[self.index as int];
        match semitone(col.val, self.scale) {
            Some(base) => seq![msg(NOTE, (base + self.octave * 12) as u8, 127, 1)],
            None => Seq::empty(),
        }
    }

    /// The state after sending the playhead's note to the synthesiser.
    pub open spec fn flush_notes(self) -> ArpView {
        ArpView { midi_out: sent(self.midi_out, self.flush_msgs()), ..self }
    }

    /// The state after one due payload, and whether every write succeeded.
    /// Quitting and checking inputs happen always; the note tick and the
    /// flush of notes happen only while the controller plays.
    pub open spec fn job(self, m: Msg) -> (ArpView, bool) {
        match m {
            Msg::Quit => (self.quit(), true),
            Msg::CheckInputs => self.check_inputs(),
            Msg::UpdateState => if self.playing {
                (self.update_state(), fits(self.grid_out, self.update_state_msgs()))
            } else {
                (self, true)
            },
            Msg::FlushNotes => if self.playing {
                (self.flush_notes(), fits(self.midi_out, self.flush_msgs()))
            } else {
                (self, true)
            },
        }
    }

    /// The state after the first `n` payloads of `queue` in order, and
    /// whether every write succeeded. The first payload that meets a fault
    /// is the last one processed.
    pub open spec fn run_jobs(self, queue: Seq<Msg>, n: int) -> (ArpView, bool)
        decreases n,
    {
        if n <= 0 {
            (self, true)
        } else {
            let (before, ok) = self.run_jobs(queue, n - 1);
            if ok {
                before.job(queue[n - 1])
            } else {
                (before, false)
            }
        }
    }

    /// The state after a tick of the scheduler, the clock aside: every job
    /// advances and the payloads that fall due join the queue.
    pub open spec fn tick(self) -> ArpView {
        ArpView {
            scheduler: SchedulerView {
                jobs: ticked(self.scheduler.jobs),
                queue: self.scheduler.queue + due(self.scheduler.jobs),
                ..self.scheduler
            },
            ..self
        }
    }

    /// The state after `n` rounds of the main loop, each a tick and the
    /// cycle that processes what the tick made due.
    pub open spec fn rounds(self, n: nat) -> ArpView
        decreases n,
    {
        if n == 0 {
            self
        } else {
            self.rounds((n - 1) as nat).tick().update().0
        }
    }

    /// The state with the scheduler's queue emptied.
    pub open spec fn drained(self) -> ArpView {
        ArpView { scheduler: SchedulerView { queue: Seq::empty(), ..self.scheduler }, ..self }
    }

    /// The state after one cycle, and whether every write succeeded: the
    /// due payloads are processed in order and the queue is emptied. After
    /// a fault the queue stays as it was.
    pub open spec fn update(self) -> (ArpView, bool) {
        let queue = self.scheduler.queue;
        let (after, ok) = self.run_jobs(queue, queue.len() as int);
        if ok {
            (after.drained(), true)
        } else {
            (after, false)
        }
    }
}

/// The lit cells of fewer columns open the lit cells of more.
pub proof fn lemma_cells_grow(v: ArpView, m: int, n: int)
    requires
        0 <= m <= n,
    ensures
        v.cells(m).len() <= v.cells(n).len(),
        forall|p: int| 0 <= p < v.cells(m).len() ==> v.cells(n)[p] == v.cells(m)[p],
    decreases n - m,
{
    if m < n {
        lemma_cells_grow(v, m, n - 1);
    }
}

/// After a fault no further event is handled.
pub proof fn lemma_events_stuck(v: ArpView, events: Seq<Event>, m: int, n: int)
    requires
        0 <= m <= n,
        !v.run_events(events, m).1,
    ensures
        v.run_events(events, n) == v.run_events(events, m),
    decreases n - m,
{
    if m < n {
        lemma_events_stuck(v, events, m, n - 1);
    }
}

/// After a fault no further payload is processed.
pub proof fn lemma_jobs_stuck(v: ArpView, queue: Seq<Msg>, m: int, n: int)
    requires
        0 <= m <= n,
        !v.run_jobs(queue, m).1,
    ensures
        v.run_jobs(queue, n) == v.run_jobs(queue, m),
    decreases n - m,
{
    if m < n {
        lemma_jobs_stuck(v, queue, m, n - 1);
    }
}

/// Handling events touches neither the scheduler nor the synthesiser, nor
/// the events still waiting.
pub proof fn lemma_events_frame(v: ArpView, events: Seq<Event>, n: int)
    ensures
        v.run_events(events, n).0.scheduler == v.scheduler,
        v.run_events(events, n).0.midi_out == v.midi_out,
        v.run_events(events, n).0.midi_in == v.midi_in,
        v.run_events(events, n).0.grid_in == v.grid_in,
    decreases n,
{
    if n > 0 {
        lemma_events_frame(v, events, n - 1);
    }
}

} // verus!
