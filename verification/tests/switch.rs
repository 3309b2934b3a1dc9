use woodox_lib::layout::HOLD_TIME;
use woodox_lib::matrix::{Switch, SwitchState};


fn default_switch() -> Switch {
    Switch::default()
}

fn rapid_switch() -> Switch {
    Switch {
        rapid_enabled: true,
        ..Default::default()
    }
}

// ── SwitchState ──────────────────────────────────────────────

#[test]
fn state_new_is_unpressed() {
    assert_eq!(SwitchState::new(), SwitchState::Unpressed);
}

#[test]
fn state_default_is_unpressed() {
    assert_eq!(SwitchState::default(), SwitchState::Unpressed);
}

#[test]
fn state_is_pressed_variants() {
    assert!(!SwitchState::Unpressed.is_pressed());
    assert!(SwitchState::Pressed.is_pressed());
    assert!(SwitchState::RapidPressed.is_pressed());
    assert!(SwitchState::Held.is_pressed());
    assert!(!SwitchState::OneShot.is_pressed());
}

#[test]
fn state_is_held() {
    assert!(!SwitchState::Unpressed.is_held());
    assert!(!SwitchState::Pressed.is_held());
    assert!(!SwitchState::RapidPressed.is_held());
    assert!(SwitchState::Held.is_held());
    assert!(!SwitchState::OneShot.is_held());
}

#[test]
fn state_is_oneshot() {
    assert!(!SwitchState::Unpressed.is_oneshot());
    assert!(!SwitchState::Pressed.is_oneshot());
    assert!(!SwitchState::RapidPressed.is_oneshot());
    assert!(!SwitchState::Held.is_oneshot());
    assert!(SwitchState::OneShot.is_oneshot());
}

// ── Switch::new vs Default ───────────────────────────────────

#[test]
fn new_sets_mux_and_channel() {
    let s = Switch::new(3, 7);
    assert_eq!(s.mux, 3);
    assert_eq!(s.channel, 7);
    assert_eq!(s.state, SwitchState::Unpressed);
}

#[test]
fn default_has_expected_thresholds() {
    let s = default_switch();
    assert_eq!(s.trig_press, 20);
    assert_eq!(s.trig_release, 18);
    assert_eq!(s.rapid_lower, 4);
    assert_eq!(s.rapid_upper, 4);
    assert_eq!(s.offset, 26);
    assert_eq!(s.position, 0);
    assert_eq!(s.rapid_last_position, 0);
}

// ── Switch::pressed() / released() direct ────────────────────

#[test]
fn pressed_normal_sets_state_and_rapid_position() {
    let mut s = default_switch();
    s.position = 10;
    s.pressed(false);

    assert_eq!(s.state, SwitchState::Pressed);
    assert_eq!(s.rapid_last_position, 10);
}

#[test]
fn pressed_rapid_sets_state_and_rapid_position() {
    let mut s = default_switch();
    s.position = 10;
    s.pressed(true);

    assert_eq!(s.state, SwitchState::RapidPressed);
    assert_eq!(s.rapid_last_position, 10);
}

#[test]
fn released_normal_clears_pressed() {
    let mut s = default_switch();
    s.state = SwitchState::Pressed;
    s.position = 50;
    s.released(false);

    assert_eq!(s.state, SwitchState::Unpressed);
    assert_eq!(s.rapid_last_position, 50);
}

#[test]
fn released_normal_clears_held() {
    let mut s = default_switch();
    s.state = SwitchState::Held;
    s.position = 50;
    s.released(false);

    assert_eq!(s.state, SwitchState::Unpressed);
    assert_eq!(s.rapid_last_position, 50);
}

#[test]
fn released_normal_rapid_pressed() {
    let mut s = default_switch();
    s.state = SwitchState::RapidPressed;
    s.position = 50;
    s.released(false);

    assert_eq!(s.state, SwitchState::Unpressed);
    assert_eq!(s.rapid_last_position, 50);
}

#[test]
fn released_rapid_always_clears() {
    let mut s = default_switch();
    s.state = SwitchState::RapidPressed;
    s.position = 50;
    s.released(true);

    assert_eq!(s.state, SwitchState::RapidUnpressed);
    assert_eq!(s.rapid_last_position, 50);
}

#[test]
fn released_resets_hold_counter() {
    let mut s = default_switch();
    s.state = SwitchState::Held;
    s.hold_counter = 500;
    s.position = 50;

    s.released(false);

    assert_eq!(s.state, SwitchState::Unpressed);
    assert_eq!(s.hold_counter, 0);
}

// ── Switch::held() ───────────────────────────────────────────

#[test]
fn held_increments_counter_when_not_yet_held() {
    let mut s = default_switch();
    s.state = SwitchState::Pressed;

    s.held(false);

    assert_eq!(s.hold_counter, 1);
    assert_eq!(s.state, SwitchState::Pressed);
}

#[test]
fn held_triggers_at_hold_time() {
    let mut s = default_switch();
    s.state = SwitchState::Pressed;
    s.hold_counter = HOLD_TIME;

    s.held(false);

    assert_eq!(s.hold_counter, 0);
    assert_eq!(s.state, SwitchState::Held);
}

#[test]
fn held_does_not_trigger_below_hold_time() {
    let mut s = default_switch();
    s.state = SwitchState::Pressed;
    s.hold_counter = HOLD_TIME - 1;

    s.held(false);

    assert!(!s.state.is_held());
    assert_eq!(s.hold_counter, HOLD_TIME);
}

#[test]
fn held_keeps_incrementing_once_held() {
    let mut s = default_switch();
    s.state = SwitchState::Held;
    s.hold_counter = HOLD_TIME;

    s.held(false);

    assert_eq!(s.hold_counter, HOLD_TIME + 1);
    assert_eq!(s.state, SwitchState::Held);
}

#[test]
fn held_can_retrigger_after_release() {
    let mut s = default_switch();

    s.state = SwitchState::Pressed;
    s.hold_counter = HOLD_TIME;
    s.held(false);
    assert_eq!(s.state, SwitchState::Held);

    s.released(false);
    assert_eq!(s.state, SwitchState::Unpressed);

    s.state = SwitchState::Pressed;
    s.hold_counter = HOLD_TIME;
    s.held(false);
    assert_eq!(s.state, SwitchState::Held);
}

// ── Switch::update() — normal trigger ────────────────────────

#[test]
fn update_press_at_threshold() {
    let mut s = default_switch();
    s.update(20);
    assert_eq!(s.state, SwitchState::Pressed);
}

#[test]
fn update_no_press_above_threshold() {
    let mut s = default_switch();
    // trig_lower = 20, 20 <= 20 -> pressed
    s.update(20);
    assert!(s.state.is_pressed());

    let mut s2 = default_switch();
    // 18 <= 20 is false -> not pressed
    s2.update(18);
    assert!(!s2.state.is_pressed());
}

#[test]
fn update_release_at_upper_threshold() {
    let mut s = default_switch();
    s.update(20);
    assert!(s.state.is_pressed());

    // trig_upper = 18, 18 >= 18 -> released
    s.update(18);
    assert_eq!(s.state, SwitchState::Unpressed);
}

#[test]
fn update_stays_pressed_between_thresholds() {
    let mut s = default_switch();
    s.update(20);
    assert!(s.state.is_pressed());

    // distance(110) = 47, comp = 26, position = 21
    // trig_upper = 18, 21 >= 18 is false -> stays pressed
    s.update(21);
    assert!(s.state.is_pressed());
}

#[test]
fn update_hysteresis_prevents_bounce() {
    let mut s = default_switch();

    s.update(20); // pos = 20, <= 20 -> press
    assert!(s.state.is_pressed());

    s.update(19); // pos = 19, < 18 -> still pressed
    assert!(s.state.is_pressed());

    s.update(18); // pos = 18, >= 18 -> release
    assert!(!s.state.is_pressed());

    s.update(19); // pos = 21, > 20 -> stays unpressed
    assert!(!s.state.is_pressed());

    s.update(20); // pos = 20, <= 20 -> press again
    assert!(s.state.is_pressed());
}

#[test]
fn update_does_not_overwrite_rapid_pressed() {
    let mut s = rapid_switch();
    s.state = SwitchState::RapidPressed;
    s.position = 15;
    s.rapid_last_position = 15;

    // pos = 15 is below trig_lower(20), but update() should
    // not fire pressed(false) when already in RapidPressed
    s.update(15); // pos = 15
    assert_eq!(s.state, SwitchState::RapidPressed);
}

// ── Switch::update() — hold via update ───────────────────────

#[test]
fn update_hold_accumulates_while_pressed() {
    let mut s = default_switch();
    s.update(20);
    assert!(s.state.is_pressed());
    assert_eq!(s.hold_counter, 0);

    for i in 1..=5 {
        s.update(20);
        assert_eq!(s.hold_counter, i);
    }
}

#[test]
fn update_hold_triggers_after_hold_time_plus_one_updates() {
    let mut s = default_switch();
    s.update(20); // initial press, hold_counter = 0

    for _ in 0..HOLD_TIME {
        s.update(20);
    }
    assert!(!s.state.is_held());
    assert_eq!(s.hold_counter, HOLD_TIME);

    s.update(20);
    assert_eq!(s.state, SwitchState::Held);
}

#[test]
fn update_held_key_can_still_be_released() {
    let mut s = default_switch();
    s.update(20);

    for _ in 0..=HOLD_TIME {
        s.update(20);
    }
    assert_eq!(s.state, SwitchState::Held);

    s.update(18); // pos = 18, >= trig_upper(18) -> released
    assert_eq!(s.state, SwitchState::Unpressed);
}

#[test]
fn update_hold_counter_resets_on_release() {
    let mut s = default_switch();

    s.update(20);
    for _ in 0..100 {
        s.update(20);
    }
    assert_eq!(s.hold_counter, 100);

    s.update(18);
    assert_eq!(s.state, SwitchState::Unpressed);
    assert_eq!(s.hold_counter, 0);

    // Second press starts counting from 0
    s.update(20);
    assert_eq!(s.hold_counter, 0);
    s.update(20);
    assert_eq!(s.hold_counter, 1);
}

// ── Switch::update_rapid() ───────────────────────────────────

#[test]
fn update_rapid_full_cycle() {
    let mut s = rapid_switch();

    // Normal press
    s.update(20);
    assert_eq!(s.state, SwitchState::RapidPressed);

    // Rapid press
    s.update(24);
    assert_eq!(s.state, SwitchState::RapidPressed);

    // Rapid release
    s.update(20);
    assert_eq!(s.state, SwitchState::Unpressed);

    // Rapid re-press
    s.update(26);
    assert_eq!(s.state, SwitchState::RapidPressed);

    // Rapid release again
    s.update(22);
    assert_eq!(s.state, SwitchState::RapidUnpressed);
}

#[test]
fn update_rapid_release_above_treshold() {
    let mut s = rapid_switch();

    s.update(20);
    assert_eq!(s.state, SwitchState::RapidPressed);
    s.update(18);
    assert_eq!(s.rapid_last_position, 20);

    s.update(16);
    assert_eq!(s.state, SwitchState::Unpressed);
}

#[test]
fn update_rapid_gradual_release() {
    let mut s = rapid_switch();

    s.update(26);
    assert_eq!(s.state, SwitchState::RapidPressed);
    s.update(25);
    s.update(24);
    s.update(23);
    s.update(22);
    assert_eq!(s.rapid_last_position, 22);
    assert_eq!(s.state, SwitchState::RapidUnpressed);
}

#[test]
fn update_rapid_gradual_release_above_thresh() {
    let mut s = rapid_switch();

    s.update(20);
    assert_eq!(s.state, SwitchState::RapidPressed);
    s.update(19);
    s.update(18);
    s.update(17);
    s.update(16);
    s.update(15);
    assert_eq!(s.rapid_last_position, 16);
    assert_eq!(s.state, SwitchState::Unpressed);
}

#[test]
fn update_rapid_gradual_press() {
    let mut s = rapid_switch();

    s.update(16);
    assert_eq!(s.state, SwitchState::Unpressed);
    s.update(17);
    s.update(18);
    s.update(19);
    s.update(20);
    assert_eq!(s.rapid_last_position, 20);
    assert_eq!(s.state, SwitchState::RapidPressed);
}

#[test]
fn update_rapid_only_after_normal_press() {
    let mut s = rapid_switch();

    assert_eq!(s.state, SwitchState::Unpressed);
    s.update(14);
    assert_eq!(s.state, SwitchState::Unpressed);
    s.update(15);
    s.update(16);
    s.update(17);
    assert_eq!(s.rapid_last_position, 0);
    assert_eq!(s.state, SwitchState::Unpressed);

    s.update(20);
    assert_eq!(s.state, SwitchState::RapidPressed);
}

// ── update_rapid arithmetic edge cases ───────────────────────

#[test]
fn update_rapid_saturates_on_underflow() {
    let mut s = rapid_switch();
    s.state = SwitchState::RapidPressed;
    s.rapid_last_position = 2; // less than rapid_lower (4)
    s.position = 1;

    // Should not panic — saturating_sub clamps to 0
    // 1 <= 0 is false, so no spurious rapid press
    s.update_rapid();
    assert_eq!(s.state, SwitchState::RapidPressed);
}

#[test]
fn update_rapid_saturates_on_overflow() {
    let mut s = rapid_switch();
    s.state = SwitchState::RapidPressed;
    s.rapid_last_position = 253; // 253 + 4 = 257 would overflow
    s.position = 254;

    // Should not panic — saturating_add clamps to 255
    // 254 >= 255 is false, so no spurious rapid release
    s.update_rapid();
    assert_eq!(s.state, SwitchState::RapidPressed);
}

// ── State transitions through update ─────────────────────────

#[test]
fn state_transitions_press_release() {
    let mut s = default_switch();
    assert_eq!(s.state, SwitchState::Unpressed);

    s.update(20);
    assert_eq!(s.state, SwitchState::Pressed);

    s.update(18);
    assert_eq!(s.state, SwitchState::Unpressed);
}

#[test]
fn state_transitions_press_hold_release() {
    let mut s = default_switch();

    s.update(20);
    assert_eq!(s.state, SwitchState::Pressed);

    for _ in 0..=HOLD_TIME {
        s.update(20);
    }
    assert_eq!(s.state, SwitchState::Held);

    s.update(18);
    assert_eq!(s.state, SwitchState::Unpressed);
}

#[test]
fn state_transitions_disabled_rapid_does_not_interfere_with_normal() {
    let mut s = default_switch();
    assert!(!s.rapid_enabled);

    s.update(20);
    assert_eq!(s.state, SwitchState::Pressed);

    s.update(25); // deeper, but rapid disabled
    assert_eq!(s.state, SwitchState::Pressed);
}


#[test]
fn rapid_release_waits_for_relative_travel_to_press_again() {
    let mut s = rapid_switch();
    s.update(26);
    s.update(22);
    assert_eq!(s.state, SwitchState::RapidUnpressed);
    assert_eq!(s.rapid_last_position, 22);
    // no movement, though 22 is past trig_press
    s.update(22);
    assert_eq!(s.state, SwitchState::RapidUnpressed);
    s.update(25);
    assert_eq!(s.state, SwitchState::RapidUnpressed);
    s.update(26);
    assert_eq!(s.state, SwitchState::RapidPressed);
    assert_eq!(s.rapid_last_position, 26);
}

#[test]
fn rapid_release_keeps_its_release_point() {
    let mut s = rapid_switch();
    s.update(26);
    s.update(22);
    assert_eq!(s.state, SwitchState::RapidUnpressed);
    s.update(15);
    assert_eq!(s.rapid_last_position, 22);
    s.update(19);
    assert_eq!(s.state, SwitchState::RapidUnpressed);
    s.update(25);
    assert_eq!(s.state, SwitchState::RapidUnpressed);
    s.update(26);
    assert_eq!(s.state, SwitchState::RapidPressed);
    assert_eq!(s.rapid_last_position, 26);
}

#[test]
fn rapid_release_near_the_bottom_saturates() {
    let mut s = rapid_switch();
    s.state = SwitchState::RapidUnpressed;
    s.rapid_last_position = 253;
    s.position = 253;
    s.update(254);
    assert_eq!(s.state, SwitchState::RapidUnpressed);
    s.update(255);
    assert_eq!(s.state, SwitchState::RapidPressed);
}
