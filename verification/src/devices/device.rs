//! A MIDI device as the sequencer sees it: a bounded queue of inbound events
//! and a bounded queue of outbound messages. The embedding program moves
//! events from the hardware into the first and messages from the second onto
//! the wire.

use vstd::prelude::*;
use crate::types::{classify, kind_of, verdict, Event, Fault, Message, MidiRes, MidiVal};

verus! {

/// Number of entries each direction of a device can buffer.
pub const BUFFER_SIZE: usize = 1024;

/// Number of further entries a queue holding `queue` can take.
pub open spec fn room<A>(queue: Seq<A>) -> nat {
    if queue.len() <= BUFFER_SIZE {
        (BUFFER_SIZE - queue.len()) as nat
    } else {
        0
    }
}

/// Whether all of `msgs` can be appended to `out` without overflowing it.
pub open spec fn fits(out: Seq<Message>, msgs: Seq<Message>) -> bool {
    msgs.len() <= room(out)
}

/// The output queue after writing `msgs` in order and stopping at the first
/// message that finds the queue full.
pub open spec fn sent(out: Seq<Message>, msgs: Seq<Message>) -> Seq<Message> {
    if fits(out, msgs) {
        out + msgs
    } else {
        out + msgs.take(room(out) as int)
    }
}

/// What writing `msgs` to `out` reports: success when all of them fit, a
/// transport fault otherwise.
pub open spec fn outcome(out: Seq<Message>, msgs: Seq<Message>) -> MidiRes {
    verdict(fits(out, msgs))
}

/// The events a read of at most `cnt` takes from `queue`: its oldest `cnt`,
/// or all of them when it holds fewer.
pub open spec fn batch(queue: Seq<Event>, cnt: nat) -> Seq<Event> {
    if queue.len() <= cnt {
        queue
    } else {
        queue.take(cnt as int)
    }
}

/// What a read of at most `cnt` leaves in `queue`.
pub open spec fn backlog(queue: Seq<Event>, cnt: nat) -> Seq<Event> {
    if queue.len() <= cnt {
        Seq::empty()
    } else {
        queue.skip(cnt as int)
    }
}

/// What the system reports of one MIDI port. A device that both sends and
/// receives shows up as two ports of the same name.
pub struct PortInfo {
    pub name: String,
    pub id: i32,
    pub input: bool,
    pub output: bool,
}

impl PortInfo {
    /// Whether the port is called `name` and goes the asked direction.
    pub open spec fn serves(self, name: Seq<char>, output: bool) -> bool {
        self.name@ == name && if output {
            self.output
        } else {
            self.input
        }
    }
}

/// The identifier of the last port among the first `n` listed that is
/// called `name` and goes the asked direction.
pub open spec fn last_port(ports: Seq<PortInfo>, name: Seq<char>, output: bool, n: int) -> Option<
    i32,
>
    decreases n,
{
    if n <= 0 {
        None
    } else if ports[n - 1].serves(name, output) {
        Some(ports[n - 1].id)
    } else {
        last_port(ports, name, output, n - 1)
    }
}

/// The two ports to open for the device called `name`: the identifiers of
/// its output port and of its input port, or nothing when either is
/// missing.
pub open spec fn ports_of(ports: Seq<PortInfo>, name: Seq<char>) -> Option<(i32, i32)> {
    match (
        last_port(ports, name, true, ports.len() as int),
        last_port(ports, name, false, ports.len() as int),
    ) {
        (Some(oid), Some(iid)) => Some((oid, iid)),
        _ => None,
    }
}

/// Picks the output port and the input port of the device called `name`
/// from the ports the system lists. Where several ports of one direction
/// carry the name, the last one listed is taken.
pub fn find_ports(ports: &Vec<PortInfo>, name: &String) -> (r: Option<(i32, i32)>)
    ensures
        r == ports_of(ports@, name@),
{
    let mut output_id: Option<i32> = None;
    let mut input_id: Option<i32> = None;
    let mut i: usize = 0;
    while i < ports.len()
        invariant
            i <= ports@.len(),
            output_id == last_port(ports@, name@, true, i as int),
            input_id == last_port(ports@, name@, false, i as int),
        decreases ports@.len() - i,
    {
        if ports[i].name == *name {
            if ports[i].output {
                output_id = Some(ports[i].id);
            }
            if ports[i].input {
                input_id = Some(ports[i].id);
            }
        }
        i += 1;
    }
    match (output_id, input_id) {
        (Some(oid), Some(iid)) => Some((oid, iid)),
        _ => None,
    }
}

/// The pair of message queues that stands for one MIDI device.
pub struct Device {
    /// Events received from the hardware and not yet consumed, oldest first.
    pub input: Vec<Event>,
    /// Messages written and not yet transmitted, oldest first.
    pub output: Vec<Message>,
}

impl Device {
    /// A device with nothing buffered in either direction.
    pub fn new() -> (d: Device)
        ensures
            d.input@ == Seq::<Event>::empty(),
            d.output@ == Seq::<Message>::empty(),
    {
        Device { input: Vec::new(), output: Vec::new() }
    }

    /// Queues one message for transmission. Fails with a transport fault,
    /// and queues nothing, when the output queue is full.
    pub fn write_message(&mut self, m: Message) -> (r: MidiRes)
        ensures
            r == outcome(old(self).output@, seq![m]),
            final(self).output@ == sent(old(self).output@, seq![m]),
            final(self).input@ == old(self).input@,
    {
        if self.output.len() < BUFFER_SIZE {
            self.output.push(m);
            Ok(())
        } else {
            Err(Fault::Transport)
        }
    }

    /// Queues the message `[kind, note, vel, extra]` for transmission.
    /// Returns `false`, and queues nothing, when the output queue is full.
    pub fn write(&mut self, kind: u8, note: u8, vel: u8, extra: u8) -> (ok: bool)
        ensures
            ok == (old(self).output@.len() < BUFFER_SIZE),
            final(self).output@ == sent(
                old(self).output@,
                seq![Message { status: kind, note: note, velocity: vel, extra: extra }],
            ),
            final(self).input@ == old(self).input@,
    {
        self.write_message(Message { status: kind, note: note, velocity: vel, extra: extra }).is_ok()
    }

    /// Takes in one event as it arrives from the hardware. The event is
    /// classified by its status byte and queued behind those already
    /// waiting. Returns `false`, and queues nothing, when the status byte
    /// announces no event the controller knows or the input queue is full.
    pub fn receive(&mut self, status: MidiVal, note: MidiVal, velocity: MidiVal) -> (ok: bool)
        ensures
            ok == (kind_of(status) is Some && old(self).input@.len() < BUFFER_SIZE),
            ok ==> final(self).input@ == old(self).input@.push(
                Event { kind: kind_of(status)->Some_0, note: note, velocity: velocity },
            ),
            !ok ==> final(self).input@ == old(self).input@,
            final(self).output@ == old(self).output@,
    {
        match classify(status) {
            Some(kind) => {
                if self.input.len() < BUFFER_SIZE {
                    self.input.push(Event { kind: kind, note: note, velocity: velocity });
                    true
                } else {
                    false
                }
            },
            None => false,
        }
    }

    /// Takes the oldest events out of the input queue, at most `cnt` of
    /// them, and returns them in arrival order.
    pub fn read_n(&mut self, cnt: usize) -> (events: Vec<Event>)
        ensures
            events@ == batch(old(self).input@, cnt as nat),
            final(self).input@ == backlog(old(self).input@, cnt as nat),
            final(self).output@ == old(self).output@,
    {
        let n = self.input.len();
        if n <= cnt {
            let mut events: Vec<Event> = Vec::new();
            std::mem::swap(&mut events, &mut self.input);
            return events;
        }
        let mut events: Vec<Event> = Vec::new();
        let mut rest: Vec<Event> = Vec::new();
        let mut i: usize = 0;
        while i < n
            invariant
                i <= n,
                cnt < n,
                n == self.input@.len(),
                self.input@ == old(self).input@,
                self.output@ == old(self).output@,
                i <= cnt ==> events@ == self.input@.take(i as int) && rest@.len() == 0,
                i > cnt ==> events@ == self.input@.take(cnt as int) && rest@ == self.input@.subrange(
                    cnt as int,
                    i as int,
                ),
            decreases n - i,
        {
            let e = self.input[i];
            if i < cnt {
                events.push(e);
            } else {
                rest.push(e);
            }
            i += 1;
        }
        self.input = rest;
        events
    }

    /// Takes every message out of the output queue and returns them in the
    /// order they were written, for the caller to put on the wire.
    pub fn take_output(&mut self) -> (msgs: Vec<Message>)
        ensures
            msgs@ == old(self).output@,
            final(self).output@ == Seq::<Message>::empty(),
            final(self).input@ == old(self).input@,
    {
        let mut msgs: Vec<Message> = Vec::new();
        std::mem::swap(&mut msgs, &mut self.output);
        msgs
    }
}

/// Writing one more message: the queue takes `msgs` and then `m` exactly
/// when it took `msgs` and still has room, and a write that stopped early
/// stays where it stopped.
pub proof fn lemma_sent_push(out: Seq<Message>, msgs: Seq<Message>, m: Message)
    ensures
        fits(out, msgs.push(m)) == (fits(out, msgs) && sent(out, msgs).len() < BUFFER_SIZE),
        fits(out, msgs) ==> sent(out, msgs.push(m)) == sent(sent(out, msgs), seq![m]),
        !fits(out, msgs) ==> sent(out, msgs.push(m)) == sent(out, msgs),
{
    if fits(out, msgs) {
        if fits(out, msgs.push(m)) {
            assert(out + msgs.push(m) =~= (out + msgs) + seq![m]);
        } else {
            assert(msgs.push(m).take(room(out) as int) =~= msgs);
        }
    } else {
        assert(msgs.push(m).take(room(out) as int) =~= msgs.take(room(out) as int));
    }
}

/// A write that has met a full queue stays there: when the messages up to
/// some point do not fit, writing all of `msgs` ends as writing those did.
pub proof fn lemma_sent_stuck(out: Seq<Message>, msgs: Seq<Message>, k: int)
    requires
        0 <= k <= msgs.len(),
        !fits(out, msgs.take(k)),
    ensures
        !fits(out, msgs),
        sent(out, msgs) == sent(out, msgs.take(k)),
{
    assert(msgs.take(k).take(room(out) as int) =~= msgs.take(room(out) as int));
}

} // verus!
