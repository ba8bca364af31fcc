//! Plain values that cross the boundary between the sequencer and the
//! hardware transport.

use vstd::prelude::*;

verus! {

/// A single MIDI data or status byte.
pub type MidiVal = u8;

/// Status byte of control-row and LED-bank messages.
pub const MIDI: MidiVal = 0xB0;

/// Status byte of grid and note messages.
pub const NOTE: MidiVal = 0x90;

/// An outbound four-byte message: an LED write or a note.
#[derive(Clone, Copy, Debug, PartialEq, Eq, Structural)]
pub struct Message {
    pub status: MidiVal,
    pub note: MidiVal,
    pub velocity: MidiVal,
    pub extra: MidiVal,
}

/// The two classes of inbound events the controller reacts to.
#[derive(Clone, Copy, Debug, PartialEq, Eq, Structural)]
pub enum EventKind {
    /// A button of the control row, status byte `0xB0`.
    ControlRow,
    /// A button of the grid or of the octave strip, status byte `0x90`.
    GridCell,
}

/// An inbound button event, classified once where it enters the library.
#[derive(Clone, Copy, Debug, PartialEq, Eq, Structural)]
pub struct Event {
    pub kind: EventKind,
    pub note: MidiVal,
    pub velocity: MidiVal,
}

/// The class of event a status byte announces, if any.
pub open spec fn kind_of(status: MidiVal) -> Option<EventKind> {
    if status == MIDI {
        Some(EventKind::ControlRow)
    } else if status == NOTE {
        Some(EventKind::GridCell)
    } else {
        None
    }
}

/// Classifies a status byte.
pub fn classify(status: MidiVal) -> (k: Option<EventKind>)
    ensures
        k == kind_of(status),
{
    if status == MIDI {
        Some(EventKind::ControlRow)
    } else if status == NOTE {
        Some(EventKind::GridCell)
    } else {
        None
    }
}

/// What can go wrong.
#[derive(Clone, Copy, Debug, PartialEq, Eq, Structural)]
pub enum Fault {
    /// A message could not be handed to the transport.
    Transport,
    /// The scheduler was given a rate that yields no tick duration.
    Configuration,
}

/// Result of every operation that writes to a device.
pub type MidiRes = Result<(), Fault>;

/// The result that reports whether every write succeeded.
pub open spec fn verdict(ok: bool) -> MidiRes {
    if ok {
        Ok(())
    } else {
        Err(Fault::Transport)
    }
}

/// Builds the message `[status, note, velocity, extra]`.
pub open spec fn msg(status: MidiVal, note: MidiVal, velocity: MidiVal, extra: MidiVal) -> Message {
    Message { status, note, velocity, extra }
}

} // verus!
