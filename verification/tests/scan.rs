use woodox_lib::layout::{keymap, switches, TravelTable, HOLD_TIME, NUM_CHANNELS, NUM_SWITCHES};
use woodox_lib::matrix::keys::{KEYBOARD_1, KEYBOARD_5, KEY_B};
use woodox_lib::matrix::{Key, Scan, ScanOrder, Switch, SwitchState};
use woodox_lib::readout;

fn identity_table() -> TravelTable {
    let mut t = [0u8; 256];
    for i in 0..256 {
        t[i] = i as u8;
    }
    t
}

#[test]
fn layout_switches_are_wired_to_distinct_channels() {
    let sw = switches();
    let channels: Vec<u8> = sw.iter().map(|s| s.channel).collect();
    assert_eq!(channels, vec![1, 0, 5, 7, 6, 4, 2, 3]);
    assert!(sw.iter().all(|s| s.mux == 0 && s.state == SwitchState::Unpressed));
}

#[test]
fn layout_keymap_base_layer() {
    let km = keymap();
    assert_eq!(km.active_layer, 0);
    assert!(matches!(km.layers[0][0], Key::GrvEsc));
    assert!(matches!(km.layers[0][1], Key::Keycode(KEYBOARD_1)));
    assert!(matches!(km.layers[0][5], Key::Keycode(KEYBOARD_5)));
    assert!(matches!(km.layers[0][7], Key::Keycode(KEY_B)));
    assert!(matches!(km.layers[1][0], Key::Dead));
}

#[test]
fn scan_order_places_switches_with_their_index() {
    let order = ScanOrder::new(switches());
    let expected_index = [1usize, 0, 6, 7, 5, 2, 4, 3];
    for c in 0..NUM_CHANNELS {
        let s = order.scans[c].switches[0];
        assert_eq!(s.channel as usize, c);
        assert_eq!(s.index, expected_index[c]);
    }
}

#[test]
fn scan_order_last_switch_on_a_slot_wins() {
    let mut sw = [Switch::new(0, 0); NUM_SWITCHES];
    sw[3] = Switch::new(0, 2);
    sw[3].trig_press = 30;
    sw[6] = Switch::new(0, 2);
    sw[6].trig_press = 40;
    let order = ScanOrder::new(sw);
    assert_eq!(order.scans[2].switches[0].trig_press, 40);
    assert_eq!(order.scans[2].switches[0].index, 6);
    // channel 0 gets the last of the switches wired there
    assert_eq!(order.scans[0].switches[0].index, 7);
    // an unused channel keeps a switch with the default values
    assert_eq!(order.scans[5].switches[0].index, 0);
    assert_eq!(order.scans[5].switches[0].offset, 26);
}

#[test]
fn scan_new_is_unconfigured() {
    let s = Scan::new();
    assert_eq!(s.switches[0].trig_press, 20);
    assert_eq!(s.switches[0].offset, 26);
    assert_eq!(s.switches[0].state, SwitchState::Unpressed);
}

#[test]
fn new_has_the_default_values() {
    let s = Switch::new(3, 7);
    let d = Switch::default();
    assert_eq!((s.mux, s.channel), (3, 7));
    assert_eq!(s.offset, d.offset);
    assert_eq!(s.trig_press, d.trig_press);
    assert_eq!(s.trig_release, d.trig_release);
    assert_eq!(s.rapid_lower, d.rapid_lower);
    assert_eq!(s.rapid_upper, d.rapid_upper);
    assert_eq!(s.index, d.index);
}

#[test]
fn value_subtracts_the_offset() {
    let mut t = [0u8; 256];
    t[110] = 47;
    t[248] = 26;
    let mut s = Switch::default();
    assert_eq!(s.value(110, &t), 21);
    assert_eq!(s.value(248, &t), 0);
    assert_eq!(s.position, 0);
    s.offset = 20;
    assert_eq!(s.value(110, &t), 27);
}

#[test]
fn fits_raw_refuses_readings_below_the_offset() {
    let mut t = [0u8; 256];
    t[248] = 26;
    let mut s = Switch::default();
    assert!(s.fits_raw(248, &t));
    s.offset = 27;
    assert!(!s.fits_raw(248, &t));
}

#[test]
fn fits_refuses_a_full_hold_counter() {
    let mut s = Switch::default();
    s.state = SwitchState::Held;
    s.hold_counter = u32::MAX;
    assert!(!s.fits(25));
    // a release does not count
    assert!(s.fits(18));
    s.hold_counter = u32::MAX - 1;
    assert!(s.fits(25));
}

#[test]
fn update_raw_uses_the_travel_of_the_reading() {
    let mut t = [0u8; 256];
    t[117] = 46;
    t[98] = 44;
    let mut s = Switch::default();
    s.update_raw(117, &t);
    assert_eq!(s.position, 20);
    assert_eq!(s.state, SwitchState::Pressed);
    s.update_raw(98, &t);
    assert_eq!(s.position, 18);
    assert_eq!(s.state, SwitchState::Unpressed);
}

#[test]
fn scan_update_updates_every_switch() {
    let t = identity_table();
    let mut scan = Scan::new();
    assert!(scan.fits([51], &t));
    scan.update([51], &t);
    assert_eq!(scan.switches[0].position, 25);
    assert_eq!(scan.switches[0].state, SwitchState::Pressed);
    scan.update([51], &t);
    assert_eq!(scan.switches[0].hold_counter, 1);
    assert!(!scan.fits([25], &t));
}

#[test]
fn hold_time_is_counted_in_updates() {
    let t = identity_table();
    let mut s = Switch::default();
    s.update_raw(56, &t);
    for _ in 0..HOLD_TIME {
        s.update_raw(56, &t);
    }
    assert_eq!(s.state, SwitchState::Pressed);
    s.update_raw(56, &t);
    assert_eq!(s.state, SwitchState::Held);
    assert_eq!(s.hold_counter, 0);
}

#[test]
fn readout_value_subtracts_the_correction() {
    let t = identity_table();
    let mut s = readout::Switch::new(2, 5);
    assert_eq!(format!("{:?}", s), "Switch { value: 255, comp: 26, mux: 2, channel: 5 }");
    s.value(100, &t);
    assert_eq!(format!("{:?}", s), "Switch { value: 74, comp: 26, mux: 2, channel: 5 }");
}

#[test]
fn readout_scan_order_places_by_channel_and_mux() {
    let mut sw = [readout::Switch::default(); 8];
    for i in 0..8 {
        sw[i] = readout::Switch::new((i % 4) as u8, (i / 4) as u8);
    }
    let order = readout::ScanOrder::new(sw);
    assert_eq!(format!("{:?}", order.scans[1].switches[3]), format!("{:?}", sw[7]));
    assert_eq!(format!("{:?}", order.scans[0].switches[2]), format!("{:?}", sw[2]));
    assert_eq!(
        format!("{:?}", order.scans[5].switches[0]),
        format!("{:?}", readout::Switch::default())
    );
}
