//! Decoding of fixed-size binary input reports from a game controller into a
//! structured snapshot of its state. The controller speaks over one of two
//! transports (USB or Bluetooth); each produces a fixed report length and a
//! byte layout of its own carrying the same information at different offsets.

pub mod bitfield;
pub mod decode;
pub mod state;
