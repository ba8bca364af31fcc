//! Models of the devices the sequencer talks to.

pub mod device;
