use woodox_lib::layout::{TravelTable, HOLD_TIME};
use woodox_lib::matrix::keys::{ESCAPE, GRAVE, KEY_A, KEY_B, LEFT_SHIFT, RIGHT_SHIFT};
use woodox_lib::nkro::{Key, Keymap, Scan, ScanOrder, Switch, ONESHOT_OFFSET};

fn identity_table() -> TravelTable {
    let mut t = [0u8; 256];
    for i in 0..256 {
        t[i] = i as u8;
    }
    t
}

fn assert_key(km: &mut Keymap, map: Key, key: u8, mods: &[u8]) {
    for &m in mods {
        km.keyboard[m as usize] = m;
    }
    km.layers[0][0] = map;
    km.set_key(0, true, false);
    assert!(km.keyboard[key as usize] == key);
    km.set_key(0, false, false);
    km.layers[0][0] = Key::Dead;
    for &m in mods {
        km.keyboard[m as usize] = 0;
    }
}

#[test]
fn key_grave_escape() {
    let mut km = Keymap::default();
    assert_key(&mut km, Key::GrvEsc, ESCAPE, &[]);
    assert_key(&mut km, Key::GrvEsc, GRAVE, &[LEFT_SHIFT]);
    assert_key(&mut km, Key::GrvEsc, GRAVE, &[RIGHT_SHIFT]);
}

#[test]
fn set_key_releases_what_it_pressed() {
    let mut km = Keymap::default();
    km.layers[0][3] = Key::Keycode(KEY_A);
    km.set_key(3, true, false);
    assert_eq!(km.keyboard()[KEY_A as usize], KEY_A);
    km.set_key(3, false, false);
    assert_eq!(km.keyboard()[KEY_A as usize], 0);
}

#[test]
fn transparent_keys_pass_to_the_layer_below() {
    let mut km = Keymap::default();
    km.layers[0][2] = Key::Keycode(KEY_B);
    km.layers[1][2] = Key::Trns;
    km.active_layer = 1;
    km.set_key(2, true, false);
    assert_eq!(km.keyboard[KEY_B as usize], KEY_B);
}

#[test]
fn layer_tap_sends_its_keycode_once_when_tapped() {
    let mut km = Keymap::default();
    km.layers[0][1] = Key::LayerTap(2, KEY_B);
    km.set_key(1, true, false);
    assert_eq!(km.keyboard[KEY_B as usize + ONESHOT_OFFSET], 0);
    km.set_key(1, false, false);
    assert_eq!(km.keyboard[KEY_B as usize + ONESHOT_OFFSET], KEY_B);
    km.clear_oneshot();
    assert_eq!(km.keyboard[KEY_B as usize + ONESHOT_OFFSET], 0);
    // a held tap does not send its keycode
    km.set_key(1, false, true);
    assert_eq!(km.keyboard[KEY_B as usize + ONESHOT_OFFSET], 0);
}

#[test]
fn hold_of_a_layer_tap_switches_layers() {
    let mut km = Keymap::default();
    km.layers[0][1] = Key::LayerTap(2, KEY_B);
    km.set_hold(1, true);
    assert_eq!(km.active_layer, 2);
    km.set_hold(1, false);
    assert_eq!(km.active_layer, 0);
    // other keys leave the layer as it is
    km.set_hold(4, true);
    assert_eq!(km.active_layer, 0);
}

#[test]
fn switch_presses_and_releases_its_key() {
    let t = identity_table();
    let mut km = Keymap::default();
    km.layers[0][0] = Key::Keycode(KEY_A);
    let mut s = Switch::default();
    assert_eq!(s.position, 255);
    assert_eq!(s.trig_lower, 20);
    assert_eq!(s.trig_upper, 22);
    // travel 46 with correction 26 is position 20: pressed
    s.update(46, &t, &mut km);
    assert!(s.pressed);
    assert_eq!(km.keyboard[KEY_A as usize], KEY_A);
    // position 21 stays pressed
    s.update(47, &t, &mut km);
    assert!(s.pressed);
    assert_eq!(s.hold_counter, 1);
    // position 22 releases
    s.update(48, &t, &mut km);
    assert!(!s.pressed);
    assert_eq!(km.keyboard[KEY_A as usize], 0);
}

#[test]
fn switch_hold_starts_after_hold_time() {
    let mut km = Keymap::default();
    km.layers[0][0] = Key::LayerTap(3, KEY_B);
    let mut s = Switch::new(0, 0);
    s.position = 10;
    s.pressed(false, &mut km);
    s.hold_counter = HOLD_TIME;
    s.held(false, &mut km);
    assert!(s.held);
    assert_eq!(s.hold_counter, 0);
    assert_eq!(km.active_layer, 3);
    s.released(false, &mut km);
    assert!(!s.held);
    assert_eq!(km.active_layer, 0);
    // a held tap is not sent when released
    assert_eq!(km.keyboard[KEY_B as usize + ONESHOT_OFFSET], 0);
}

#[test]
fn switch_rapid_trigger() {
    let mut km = Keymap::default();
    km.layers[0][0] = Key::Keycode(KEY_A);
    let mut s = Switch::new(0, 0);
    s.rapid_position = 30;
    s.position = 26;
    s.update_rapid(&mut km);
    assert!(s.rapid_pressed);
    assert_eq!(s.rapid_position, 26);
    s.position = 29;
    s.update_rapid(&mut km);
    assert!(s.rapid_pressed);
    s.position = 30;
    s.update_rapid(&mut km);
    assert!(!s.rapid_pressed);
    assert_eq!(km.keyboard[KEY_A as usize], 0);
}

#[test]
fn scan_order_and_scan_update() {
    let t = identity_table();
    let mut sw = [Switch::default(); 8];
    for i in 0..8 {
        sw[i] = Switch::new(0, (7 - i) as u8);
    }
    let order = ScanOrder::new(sw);
    assert_eq!(order.scans[7].switches[0].index, 0);
    assert_eq!(order.scans[0].switches[0].index, 7);

    let mut km = Keymap::default();
    km.layers[0][0] = Key::Keycode(KEY_A);
    let mut scan = Scan::default();
    scan.update([40], &t, &mut km);
    assert!(scan.switches[0].pressed);
    assert_eq!(km.keyboard[KEY_A as usize], KEY_A);
    let _ = ScanOrder::default();
}
