//! Platform independent logic of the Woodox analog hall-effect keyboard:
//! switch state machines with rapid trigger, the scan order that maps
//! multiplexer channels to keymap positions, and layered key resolution.

pub mod board;
pub mod layout;
pub mod matrix;
pub mod nkro;
pub mod readout;
