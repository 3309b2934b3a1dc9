//! Dimensions and timing of the Woodox layout.

use vstd::prelude::*;

use crate::matrix::keys::{
    base_layer_only, Key, Keymap, KEYBOARD_1, KEYBOARD_2, KEYBOARD_3, KEYBOARD_4, KEYBOARD_5, KEY_A, KEY_B,
    NUM_LAYERS,
};
use crate::matrix::scan_order::{wiring_distinct, wiring_in_range};
use crate::matrix::switch::{spec_new, Switch};

verus! {

/// Number of multiplexers connected to ADC
pub const NUM_MUX: usize = 1;

/// Total number of switches
pub const NUM_SWITCHES: usize = 8;

/// Number of scans needed to scan all switches
///
/// This depends on the number of mux and number of switches.
/// If the board has 1 mux connected, we need to scan each switch.
/// If the board has 4 mux connected, we can scan 4 switches at the same time.
pub const NUM_CHANNELS: usize = 8;

/// About 200ms for this board
pub const HOLD_TIME: u32 = 8000;

/// Travel distance in 0.1mm for every raw 8-bit ADC reading, measured
/// along the response curve of the hall effect sensors
pub type TravelTable = [u8; 256];

/// Number of ADC samples taken per multiplexer and channel in one scan
pub const SAMPLES: usize = 4;

/// Channel each switch is wired to, in layout order (all on multiplexer 0)
pub open spec fn woodox_channel(i: int) -> u8 {
    if i == 0 {
        1
    } else if i == 1 {
        0
    } else if i == 2 {
        5
    } else if i == 3 {
        7
    } else if i == 4 {
        6
    } else if i == 5 {
        4
    } else if i == 6 {
        2
    } else {
        3
    }
}

/// The switches of the board in layout order
pub fn switches() -> (sw: [Switch; NUM_SWITCHES])
    ensures
        forall|i: int| 0 <= i < NUM_SWITCHES ==> #[trigger] sw@[i] == spec_new(0, woodox_channel(i)),
        wiring_in_range(sw@),
        wiring_distinct(sw@),
{
    let sw = [
        Switch::new(0, 1),
        Switch::new(0, 0),
        Switch::new(0, 5),
        Switch::new(0, 7),
        Switch::new(0, 6),
        Switch::new(0, 4),
        Switch::new(0, 2),
        Switch::new(0, 3),
    ];
    assert(forall|i: int| 0 <= i < NUM_SWITCHES ==> #[trigger] sw@[i] == spec_new(0, woodox_channel(i)));
    sw
}

/// The keys of the base layer, in layout order
pub open spec fn woodox_base_key(i: int) -> Key {
    if i == 0 {
        Key::GrvEsc
    } else if i == 1 {
        Key::Keycode(KEYBOARD_1)
    } else if i == 2 {
        Key::Keycode(KEYBOARD_2)
    } else if i == 3 {
        Key::Keycode(KEYBOARD_3)
    } else if i == 4 {
        Key::Keycode(KEYBOARD_4)
    } else if i == 5 {
        Key::Keycode(KEYBOARD_5)
    } else if i == 6 {
        Key::Keycode(KEY_A)
    } else {
        Key::Keycode(KEY_B)
    }
}

/// The keymap of the board: one base layer, every other key dead
pub fn keymap() -> (km: Keymap)
    ensures
        km.active_layer == 0,
        base_layer_only(km),
        forall|i: int| 0 <= i < NUM_SWITCHES ==> #[trigger] km.key(0, i) == woodox_base_key(i),
        forall|l: int, i: int|
            1 <= l < NUM_LAYERS && 0 <= i < NUM_SWITCHES ==> #[trigger] km.key(l, i) == Key::Dead,
{
    let mut keymap = Keymap::default();
    let ghost blank = keymap;
    keymap.layers[0] = [
        Key::GrvEsc,
        Key::Keycode(KEYBOARD_1),
        Key::Keycode(KEYBOARD_2),
        Key::Keycode(KEYBOARD_3),
        Key::Keycode(KEYBOARD_4),
        Key::Keycode(KEYBOARD_5),
        Key::Keycode(KEY_A),
        Key::Keycode(KEY_B),
    ];
    assert(forall|i: int| 0 <= i < NUM_SWITCHES ==> #[trigger] keymap.key(0, i) == woodox_base_key(i));
    assert forall|l: int, i: int| 1 <= l < NUM_LAYERS && 0 <= i < NUM_SWITCHES implies #[trigger] keymap.key(l, i) == Key::Dead by {
        assert(keymap.layers@[l] == blank.layers@[l]);
        assert(blank.key(l, i) == Key::Dead);
    }
    keymap
}

} // verus!
