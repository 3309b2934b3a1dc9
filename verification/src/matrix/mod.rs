//! Scanning the switches and mapping them to actions.
//!
//! Hall effect keyboards do not use a matrix: multiplexers attach many
//! switches to few ADC pins, so the order in which switches are scanned does
//! not follow their position on the keyboard. All switches are indexed in one
//! array, and [`ScanOrder::new`] builds the runtime scan order from it while
//! remembering each switch's index, so a scanned switch maps back to its
//! position in a layer.

pub mod keys;
pub mod scan_order;
pub mod switch;

pub use keys::{Key, KeyboardEvent, KeyboardState, KeyboardView, Keymap, Layer, MATRIX_LEN, NUM_KEYCODES, NUM_KEY_POSITIONS, NUM_LAYERS};
pub use scan_order::{Scan, ScanOrder};
pub use switch::{Switch, SwitchState};

