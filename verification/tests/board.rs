use woodox_lib::board::adc::read_sample;
use woodox_lib::board::message::{Message, UartRole};
use woodox_lib::board::mux::{next_position, select_levels};
use woodox_lib::board::scan::{average_samples, ScanCursor, ScanRound, ScanStep};
use woodox_lib::board::timer::get_counter;
use woodox_lib::board::uart::{forward_event, UartLink};
use woodox_lib::board::usb::{UsbLink, UsbState, USB_INIT_TICKS};
use woodox_lib::layout::{keymap, switches, NUM_CHANNELS};
use woodox_lib::matrix::keys::{ESCAPE, KEY_A};
use woodox_lib::matrix::{KeyboardEvent, KeyboardState, Keymap, ScanOrder, SwitchState};

#[test]
fn message_bytes() {
    assert_eq!(Message::Init(UartRole::Primary).write(), [0, 1, 0, 0]);
    assert_eq!(Message::InitAck(UartRole::Secondary).write(), [1, 2, 0, 0]);
    assert_eq!(Message::Keycode((3, 1, KEY_A)).write(), [2, 3, 1, 4]);
    assert_eq!(Message::Layer(7).write(), [4, 7, 0, 0]);
}

#[test]
fn message_round_trip() {
    let msgs = [
        Message::Init(UartRole::Setup),
        Message::Init(UartRole::Secondary),
        Message::InitAck(UartRole::Primary),
        Message::Keycode((250, 9, 0xE1)),
        Message::Layer(31),
    ];
    for m in msgs {
        let back = Message::read(&m.write()).unwrap();
        assert_eq!(format!("{:?}", back), format!("{:?}", m));
    }
}

#[test]
fn message_read_rejects_garbage() {
    assert!(Message::read(&[3, 0, 0, 0]).is_none());
    assert!(Message::read(&[0, 3, 0, 0]).is_none());
    assert!(Message::read(&[1, 9, 0, 0]).is_none());
    // bytes behind the fields are ignored
    assert!(matches!(Message::read(&[4, 2, 9, 9]), Some(Message::Layer(2))));
}

#[test]
fn uart_roles_are_negotiated() {
    let mut keys = KeyboardState::new(Keymap::default());
    let mut primary = UartLink::new();
    let mut secondary = UartLink::new();
    // the half with USB announces itself
    let replies = secondary.intr(Message::Init(UartRole::Primary), &mut keys);
    assert_eq!(replies.len(), 1);
    assert!(matches!(replies[0], Message::InitAck(UartRole::Secondary)));
    let replies = primary.intr(replies[0], &mut keys);
    assert!(replies.is_empty());
    assert_eq!(primary.role, UartRole::Primary);
    assert!(primary.initialized);

    // a secondary announcing itself to an initialized half gets its role back
    let replies = primary.intr(Message::Init(UartRole::Secondary), &mut keys);
    assert_eq!(replies.len(), 2);
    assert!(matches!(replies[0], Message::InitAck(UartRole::Primary)));
    assert!(matches!(replies[1], Message::Init(UartRole::Primary)));
    let _ = secondary.intr(Message::InitAck(UartRole::Primary), &mut keys);
    assert_eq!(secondary.role, UartRole::Secondary);
}

#[test]
fn uart_keycodes_and_layers_are_taken_over() {
    let mut keys = KeyboardState::new(Keymap::default());
    let mut link = UartLink::new();
    link.intr(Message::Keycode((3, 2, KEY_A)), &mut keys);
    assert_eq!(keys.matrix[12], KEY_A);
    link.intr(Message::Layer(5), &mut keys);
    assert_eq!(keys.keymap.active_layer, 5);
}

#[test]
fn usb_connects_when_configured() {
    let mut link = UsbLink::new();
    let t = link.tick(false);
    assert!(t.serve && t.announce.is_none() && !t.log_waiting);
    assert_eq!(link.init_ticks, 1);
    let t = link.tick(true);
    assert_eq!(link.initialized, UsbState::Connected);
    assert_eq!(t.announce, Some(UartRole::Primary));
    assert!(t.serve);
    let t = link.tick(false);
    assert!(t.serve && t.announce.is_none());
}

#[test]
fn usb_gives_up_after_init_ticks() {
    let mut link = UsbLink::new();
    let mut logs = 0;
    for _ in 0..USB_INIT_TICKS {
        let t = link.tick(false);
        assert!(t.serve);
        if t.log_waiting {
            logs += 1;
        }
    }
    assert_eq!(logs, 20);
    let t = link.tick(false);
    assert_eq!(link.initialized, UsbState::Disconnected);
    assert_eq!(t.announce, Some(UartRole::Secondary));
    assert!(!t.serve);
    let t = link.tick(true);
    assert!(!t.serve && t.announce.is_none());
}

#[test]
fn samples_are_averaged() {
    assert_eq!(average_samples(&[10, 20, 30, 40]), [25]);
    assert_eq!(average_samples(&[255, 255, 255, 255]), [255]);
    assert_eq!(average_samples(&[1, 1, 1, 0]), [0]);
}

#[test]
fn scan_round_visits_every_channel() {
    let mut c = ScanCursor::new();
    assert_eq!(c.scan(), Some(0));
    // a round in progress is not restarted
    assert_eq!(c.scan(), None);
    for k in 0..8u8 {
        let (done, step) = c.dma_completion();
        assert_eq!(done, Some(k));
        if k < 7 {
            assert_eq!(step, ScanStep::Transfer(k + 1));
        } else {
            assert_eq!(step, ScanStep::Finish);
        }
    }
    // a completion without a transfer delivers nothing
    let (done, step) = c.dma_completion();
    assert_eq!(done, None);
    assert_eq!(step, ScanStep::Finish);
    assert_eq!(c.scan(), Some(0));
}

#[test]
fn mux_select_levels() {
    assert_eq!(select_levels(0), [false, false, false]);
    assert_eq!(select_levels(5), [true, false, true]);
    assert_eq!(select_levels(6), [false, true, true]);
    assert_eq!(select_levels(15), [true, true, true]);
    assert_eq!(next_position(6), 7);
    assert_eq!(next_position(7), 0);
    assert_eq!(next_position(200), 0);
}

#[test]
fn counter_halves() {
    assert_eq!(get_counter(1, 5, 1), Some(0x1_0000_0005));
    assert_eq!(get_counter(1, 5, 2), None);
    assert_eq!(get_counter(0xFFFF_FFFF, 0xFFFF_FFFF, 0xFFFF_FFFF), Some(u64::MAX));
}

#[test]
fn adc_sample() {
    assert_eq!(read_sample(0xFFF), 0xFF);
    assert_eq!(read_sample(0x7F0), 0x7F);
    assert_eq!(read_sample(0xF), 0);
}

#[test]
fn events_forwarded_by_role() {
    let key = KeyboardEvent::Keycode(1, 1, KEY_A);
    assert!(matches!(
        forward_event(UartRole::Secondary, key),
        Some(Message::Keycode((1, 1, KEY_A)))
    ));
    assert!(forward_event(UartRole::Primary, key).is_none());
    assert!(forward_event(UartRole::Setup, key).is_none());
    assert!(matches!(
        forward_event(UartRole::Primary, KeyboardEvent::Layer(2)),
        Some(Message::Layer(2))
    ));
}

fn identity_table() -> [u8; 256] {
    let mut t = [0u8; 256];
    for i in 0..256 {
        t[i] = i as u8;
    }
    t
}

#[test]
fn scan_round_hands_readings_to_switches_and_keyboard() {
    let t = identity_table();
    let mut keys = KeyboardState::new(keymap());
    let mut round = ScanRound::new(ScanOrder::new(switches()));
    assert_eq!(round.cursor.scan(), Some(0));
    let mut events = Vec::new();
    for c in 0..NUM_CHANNELS {
        // switch 0 of the layout, the grave escape key, is on channel 1
        let samples = if c == 1 { [58, 60, 62, 60] } else { [30; 4] };
        let (step, evs) = round.dma_completion(Some(samples), &t, &mut keys).unwrap();
        if c + 1 < NUM_CHANNELS {
            assert_eq!(step, ScanStep::Transfer(c as u8 + 1));
            assert!(evs.is_empty());
        } else {
            assert_eq!(step, ScanStep::Finish);
        }
        events = evs;
    }
    assert_eq!(round.order.scans[1].switches[0].position, 34);
    assert_eq!(round.order.scans[1].switches[0].state, SwitchState::Pressed);
    assert_eq!(round.order.scans[0].switches[0].position, 4);
    assert_eq!(events.len(), 1);
    assert!(matches!(events[0], KeyboardEvent::Keycode(0, 1, ESCAPE)));
    assert_eq!(keys.matrix[0], ESCAPE);
}

#[test]
fn scan_round_refuses_a_reading_below_the_offset() {
    let t = identity_table();
    let mut keys = KeyboardState::new(keymap());
    let mut round = ScanRound::new(ScanOrder::new(switches()));
    round.cursor.scan();
    assert!(round.dma_completion(Some([10; 4]), &t, &mut keys).is_none());
    // without a running transfer the readings are not used
    let mut round = ScanRound::new(ScanOrder::new(switches()));
    let (step, _) = round.dma_completion(Some([10; 4]), &t, &mut keys).unwrap();
    assert_eq!(step, ScanStep::Transfer(0));
    assert_eq!(round.order.scans[0].switches[0].position, 0);
}

#[test]
fn scan_round_leaves_switches_and_keyboard_when_refused() {
    let t = identity_table();
    let mut km = Keymap::default();
    km.active_layer = 40;
    let mut keys = KeyboardState::new(km);
    let mut round = ScanRound::new(ScanOrder::new(switches()));
    round.cursor.scan();
    for _ in 0..NUM_CHANNELS - 1 {
        round.dma_completion(Some([60; 4]), &t, &mut keys).unwrap();
    }
    let before = round.order;
    // the last channel's readings arrive, but no switch fits the keymap
    assert!(round.dma_completion(Some([60; 4]), &t, &mut keys).is_none());
    assert_eq!(round.order.scans[7].switches[0].position, before.scans[7].switches[0].position);
    assert_eq!(round.order.scans[7].switches[0].state, SwitchState::Unpressed);
    assert!(keys.matrix.iter().all(|k| *k == 0));
    assert_eq!(keys.keymap.active_layer, 40);
}
