//! A step sequencer and arpeggiator for grid-button MIDI controllers.
//!
//! The crate holds the logic only: the tick scheduler, the pattern store,
//! the controller state machine and the renderer. Hardware transport, the
//! wall clock and sleeping belong to the program that embeds it.
//!
//! A device is a pair of bounded queues. The embedding program runs the
//! loop: when `Arp::inputs_due` says so it polls the hardware and hands
//! each event to `Device::receive`; it calls `Arp::update`; it takes the
//! messages out with `Device::take_output` and puts them on the wire; it
//! calls `Scheduler::update` with the current time, sleeps for the pause
//! returned, and reports the time of waking to `Scheduler::wake`.

pub mod types;
pub mod devices;
pub mod launchpad;
pub mod scheduler;
pub mod scale;
pub mod pattern;
pub mod arp;
