//! Decisions of the split keyboard halves: the message protocol between the
//! halves, USB bring-up, the scan schedule and the conversions of the raw
//! hardware readings. The hardware itself is driven elsewhere; these
//! functions take what it read and say what to do next.

pub mod adc;
pub mod message;
pub mod mux;
pub mod scan;
pub mod timer;
pub mod uart;
pub mod usb;
