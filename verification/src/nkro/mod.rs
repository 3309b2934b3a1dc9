//! Switches that act on the keymap as soon as they change, for boards that
//! send an NKRO report with one entry per keycode.
//!
//! The keymap owns the report it writes: one entry for every keycode, and
//! behind them one entry for every keycode that is sent exactly once.

pub mod keys;
pub mod scan_order;
pub mod switch;

pub use scan_order::{Scan, ScanOrder};
pub use switch::Switch;
pub use keys::{Key, Keymap, KeymapView, Layer, NUM_KEYCODES, NUM_LAYERS, ONESHOT_OFFSET};
