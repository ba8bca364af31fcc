//! Laws of the controller, stated over its model and proved.

use vstd::prelude::*;
use crate::arp::model::{led_on, ArpView, TOP_ROW};
use crate::arp::Msg;
use crate::devices::device::{fits, sent};
use crate::pattern::SWEEP_BASE;
use crate::types::Message;

verus! {

/// The lit cells of a page do not depend on what the grid's queue holds.
proof fn lemma_cells_ignore_queue(v: ArpView, out: Seq<Message>, n: int)
    ensures
        (ArpView { grid_out: out, ..v }).cells(n) == v.cells(n),
    decreases n,
{
    if n > 0 {
        lemma_cells_ignore_queue(v, out, n - 1);
    }
}

/// A repaint is idempotent: it changes nothing but the grid's queue, so a
/// second repaint right after the first writes the same messages again.
pub proof fn law_repaint_idempotent(v: ArpView)
    ensures
        v.render_ui() == (ArpView { grid_out: sent(v.grid_out, v.repaint()), ..v }),
        v.render_ui().repaint() == v.repaint(),
        fits(v.grid_out, v.repaint() + v.repaint()) ==> v.render_ui().render_ui().grid_out
            == v.grid_out + v.repaint() + v.repaint(),
{
    lemma_cells_ignore_queue(v, sent(v.grid_out, v.repaint()), 8);
}

/// Whether `m` is the LED of the lit column behind place `x` of the page.
pub open spec fn shows(v: ArpView, x: int, m: Message) -> bool {
    &&& v.buffer[v.buffer_index * 8 + x].val > 0
    &&& m == led_on(v.buffer[v.buffer_index * 8 + x].note)
}

/// Whether `m` is the LED of a lit column among the first `n` of the page.
pub open spec fn from_page(v: ArpView, n: int, m: Message) -> bool {
    exists|x: int| 0 <= x < n && #[trigger] shows(v, x, m)
}

/// A repaint shows the page and nothing else: every cell among its messages
/// is the LED of a lit column of the page.
pub proof fn law_cells_belong_to_page(v: ArpView, n: int)
    requires
        0 <= n <= 8,
    ensures
        forall|p: int| 0 <= p < v.cells(n).len() ==> from_page(v, n, #[trigger] v.cells(n)[p]),
    decreases n,
{
    if n > 0 {
        law_cells_belong_to_page(v, n - 1);
        assert forall|p: int| 0 <= p < v.cells(n).len() implies from_page(
            v,
            n,
            #[trigger] v.cells(n)[p],
        ) by {
            if p < v.cells(n - 1).len() {
                let x = choose|x: int| 0 <= x < n - 1 && #[trigger] shows(v, x, v.cells(n - 1)[p]);
                assert(shows(v, x, v.cells(n)[p]));
            } else {
                assert(shows(v, n - 1, v.cells(n)[p]));
            }
        }
    }
}

/// A repaint shows all of the page: the LED of every lit column of the page
/// is among the cells.
pub proof fn law_page_is_shown(v: ArpView, x: int)
    requires
        0 <= x < 8,
        v.buffer[v.buffer_index * 8 + x].val > 0,
    ensures
        v.cells(8).contains(led_on(v.buffer[v.buffer_index * 8 + x].note)),
{
    let m = led_on(v.buffer[v.buffer_index * 8 + x].note);
    crate::arp::model::lemma_cells_grow(v, x + 1, 8);
    assert(v.cells(8)[v.cells(x).len() as int] == m);
}

/// Columns of other pages do not show: two states that agree on the page
/// and on its eight columns repaint the same cells.
pub proof fn law_other_pages_do_not_show(v: ArpView, w: ArpView, n: int)
    requires
        0 <= n <= 8,
        v.buffer_index == w.buffer_index,
        forall|c: int|
            v.buffer_index * 8 <= c < v.buffer_index * 8 + 8 ==> #[trigger] v.buffer[c] == w.buffer[c],
    ensures
        v.cells(n) == w.cells(n),
    decreases n,
{
    if n > 0 {
        law_other_pages_do_not_show(v, w, n - 1);
    }
}

/// No lit cell of a well-formed pattern lies in the bottom row, where the
/// sweep marker runs.
proof fn lemma_cells_above_sweep(v: ArpView, n: int)
    requires
        v.wf(),
        0 <= n <= 8,
    ensures
        forall|p: int| 0 <= p < v.cells(n).len() ==> (#[trigger] v.cells(n)[p]).note < SWEEP_BASE,
    decreases n,
{
    if n > 0 {
        lemma_cells_above_sweep(v, n - 1);
        let col = v.buffer[v.buffer_index * 8 + n - 1];
        assert(col.wf_at(v.buffer_index * 8 + n - 1));
        assert forall|p: int| 0 <= p < v.cells(n).len() implies (#[trigger] v.cells(n)[p]).note
            < SWEEP_BASE by {
            if p < v.cells(n - 1).len() {
                assert(v.cells(n)[p] == v.cells(n - 1)[p]);
            } else {
                assert(col.note / 16 <= 6);
            }
        }
    }
}

/// A repaint draws the sweep LED only when the marker lies on the page:
/// with the marker on another page, the marker's message is not among the
/// messages of the repaint.
pub proof fn law_sweep_hidden_off_page(v: ArpView)
    requires
        v.wf(),
        !v.tracker.visible(v.buffer_index),
    ensures
        !v.repaint().contains(v.tracker.btn),
{
    lemma_cells_above_sweep(v, 8);
    let all = v.repaint();
    assert forall|p: int| 0 <= p < all.len() implies all[p] != v.tracker.btn by {
        if p >= 5 {
            assert(all[p] == v.cells(8)[p - 5]);
        }
    }
}

/// Switching pages: a press of the selector of a page other than the one
/// shown selects that page and repaints for it. The repaint holds the
/// cells of the new page only, and it holds the sweep LED only if the
/// marker lies on the new page.
pub proof fn law_page_switch(v: ArpView, page: u8)
    requires
        v.wf(),
        page <= 3,
        page != v.buffer_index,
    ensures
        v.top_row((TOP_ROW + page) as u8).wf(),
        v.top_row((TOP_ROW + page) as u8).buffer_index == page,
        v.top_row((TOP_ROW + page) as u8).buffer == v.buffer,
        v.top_row_msgs((TOP_ROW + page) as u8) == v.paged(page).repaint(),
        !v.tracker.visible(page) ==> !v.top_row_msgs((TOP_ROW + page) as u8).contains(
            v.tracker.btn,
        ),
        forall|p: int|
            0 <= p < v.paged(page).cells(8).len() ==> from_page(
                v.paged(page),
                8,
                #[trigger] v.paged(page).cells(8)[p],
            ),
{
    let w = v.paged(page);
    if !v.tracker.visible(page) {
        law_sweep_hidden_off_page(w);
    }
    law_cells_belong_to_page(w, 8);
}

/// Play gates the tick-driven actions: while the controller is paused and
/// no event waits in the grid's input queue, processing any payloads sends
/// no note, moves neither the playhead nor the sweep marker, writes nothing
/// to the grid, and leaves the controller paused.
pub proof fn law_paused_is_silent(v: ArpView, queue: Seq<Msg>, n: int)
    requires
        !v.playing,
        v.grid_in.len() == 0,
        0 <= n <= queue.len(),
    ensures
        v.run_jobs(queue, n).1,
        v.run_jobs(queue, n).0 == (ArpView { running: v.run_jobs(queue, n).0.running, ..v }),
    decreases n,
{
    if n > 0 {
        law_paused_is_silent(v, queue, n - 1);
        let before = v.run_jobs(queue, n - 1).0;
        let waiting = crate::devices::device::batch(
            before.grid_in,
            crate::devices::device::BUFFER_SIZE as nat,
        );
        let rest = ArpView {
            grid_in: crate::devices::device::backlog(
                before.grid_in,
                crate::devices::device::BUFFER_SIZE as nat,
            ),
            ..before
        };
        assert(rest.grid_in =~= before.grid_in);
    }
}

/// Pausing silences the synthesiser: after a press of pause, and as long
/// as no further event arrives, no number of ticks makes the controller
/// send a note, whatever jobs the scheduler holds. Playhead and sweep
/// marker stay where they are, and nothing more is written to the grid.
pub proof fn law_pause_gates_notes(v: ArpView, n: nat)
    requires
        v.grid_in.len() == 0,
    ensures
        !v.pause().playing,
        v.pause().midi_out == v.midi_out,
        !v.pause().rounds(n).playing,
        v.pause().rounds(n).midi_out == v.midi_out,
        v.pause().rounds(n).index == v.index,
        v.pause().rounds(n).tracker == v.tracker,
        v.pause().rounds(n).grid_out == v.pause().grid_out,
        v.pause().rounds(n).grid_in.len() == 0,
    decreases n,
{
    if n > 0 {
        law_pause_gates_notes(v, (n - 1) as nat);
        let p = v.pause().rounds((n - 1) as nat).tick();
        law_paused_is_silent(p, p.scheduler.queue, p.scheduler.queue.len() as int);
    }
}

} // verus!
