//! State machine of a single analog switch.

use vstd::prelude::*;

use crate::layout::{TravelTable, HOLD_TIME};

verus! {

/// Logical state of a switch
#[derive(Debug, Default, Copy, Clone, PartialEq, Eq, Structural, PartialOrd, Ord)]
pub enum SwitchState {
    Pressed,
    #[default]
    Unpressed,
    RapidPressed,
    RapidUnpressed,
    Held,
    OneShot,
}

impl SwitchState {
    /// The states in which the key of the switch is down
    pub open spec fn is_down(self) -> bool {
        self == SwitchState::Pressed || self == SwitchState::RapidPressed || self == SwitchState::Held
    }

    pub fn new() -> (s: Self)
        ensures
            s == SwitchState::Unpressed,
    {
        Self::Unpressed
    }

    pub fn is_oneshot(&self) -> (b: bool)
        ensures
            b == (*self == SwitchState::OneShot),
    {
        *self == Self::OneShot
    }

    pub fn is_pressed(&self) -> (b: bool)
        ensures
            b == self.is_down(),
    {
        *self == Self::Pressed || *self == Self::RapidPressed || *self == Self::Held
    }

    pub fn is_held(&self) -> (b: bool)
        ensures
            b == (*self == SwitchState::Held),
    {
        *self == Self::Held
    }
}

/// A single switch in our keyboard
#[derive(Debug, Copy, Clone)]
pub struct Switch {
    /// Switch position in units of 0.1mm
    pub position: u8,
    /// Whether the switch is pressed, held, etc.
    pub state: SwitchState,
    /// How long the switch has been held for in cycles
    pub hold_counter: u32,
    /// Boundry that triggers a press
    pub trig_press: u8,
    /// Boundry that triggers a release
    pub trig_release: u8,
    /// If rapid trigger is enabled for this switch,
    pub rapid_enabled: bool,
    /// Last position that triggered a press or release
    pub rapid_last_position: u8,
    /// Boundry that triggers a press
    pub rapid_lower: u8,
    /// Boundry that triggers a release
    pub rapid_upper: u8,
    /// individual position correction
    pub offset: u8,
    /// ID of the mux this switch is attached to
    pub mux: u8,
    /// Channel of the mux this switch is attached to
    pub channel: u8,
    /// Index of the switch used to map it
    /// to a location in the keymaps
    pub index: usize,
}

/// `a - b`, stopping at zero
pub open spec fn sat_sub(a: u8, b: u8) -> int {
    if a >= b { a - b } else { 0 }
}

/// `a + b`, stopping at `u8::MAX`
pub open spec fn sat_add(a: u8, b: u8) -> int {
    if a + b <= u8::MAX { a + b } else { u8::MAX as int }
}

/// The switch after a press was registered
pub open spec fn spec_pressed(s: Switch, rapid: bool) -> Switch {
    Switch {
        state: if rapid { SwitchState::RapidPressed } else { SwitchState::Pressed },
        rapid_last_position: s.position,
        ..s
    }
}

/// The switch after a release was registered
pub open spec fn spec_released(s: Switch, rapid: bool) -> Switch {
    Switch {
        state: if rapid && s.position > s.trig_press {
            SwitchState::RapidUnpressed
        } else {
            SwitchState::Unpressed
        },
        hold_counter: 0,
        rapid_last_position: s.position,
        ..s
    }
}

/// Whether one cycle of holding would trigger the hold action
pub open spec fn hold_triggers(s: Switch) -> bool {
    s.state != SwitchState::Held && s.hold_counter >= HOLD_TIME
}

/// Counting one more cycle of holding cannot overflow the hold counter
pub open spec fn can_hold(s: Switch) -> bool {
    hold_triggers(s) || s.hold_counter < u32::MAX
}

/// The switch after one more cycle in which it stayed down
pub open spec fn spec_held(s: Switch) -> Switch {
    if hold_triggers(s) {
        Switch { hold_counter: 0, state: SwitchState::Held, ..s }
    } else {
        Switch { hold_counter: (s.hold_counter + 1) as u32, ..s }
    }
}

/// A rapid pressed switch releases once it rose `rapid_upper` above the
/// deepest position it reached
pub open spec fn rapid_releases(s: Switch) -> bool {
    s.position <= sat_sub(s.rapid_last_position, s.rapid_upper)
}

/// A switch released by rapid trigger presses again once it went
/// `rapid_lower` deeper than where it was released (stopping at 255); any
/// other switch that is not pressed presses at `trig_press`
pub open spec fn rapid_presses(s: Switch) -> bool {
    if s.state == SwitchState::RapidUnpressed {
        s.position >= sat_add(s.rapid_last_position, s.rapid_lower)
    } else {
        s.position >= s.trig_press
    }
}

/// Rapid trigger evaluation cannot overflow the hold counter
pub open spec fn can_update_rapid(s: Switch) -> bool {
    s.state == SwitchState::RapidPressed && !rapid_releases(s) ==> can_hold(s)
}

/// The switch after one rapid trigger evaluation of its current position
pub open spec fn spec_update_rapid(s: Switch) -> Switch {
    if s.state == SwitchState::RapidPressed {
        if rapid_releases(s) {
            spec_released(s, true)
        } else {
            let deepest = if s.position > s.rapid_last_position {
                s.position
            } else {
                s.rapid_last_position
            };
            spec_held(Switch { rapid_last_position: deepest, ..s })
        }
    } else if rapid_presses(s) {
        spec_pressed(s, true)
    } else {
        s
    }
}

/// Whether the normal (hysteresis) trigger treats the switch as down
pub open spec fn normal_down(st: SwitchState) -> bool {
    st == SwitchState::Pressed || st == SwitchState::Held
}

/// The switch after one normal trigger evaluation of its current position
pub open spec fn spec_update_normal(s: Switch) -> Switch {
    if normal_down(s.state) {
        if s.position <= s.trig_release {
            spec_released(s, false)
        } else {
            spec_held(s)
        }
    } else if s.position >= s.trig_press {
        spec_pressed(s, false)
    } else {
        s
    }
}

/// Evaluating `travel` cannot overflow the hold counter
pub open spec fn can_update(s: Switch, travel: u8) -> bool {
    let t = Switch { position: travel, ..s };
    if s.rapid_enabled {
        can_update_rapid(t)
    } else {
        normal_down(s.state) && travel > s.trig_release ==> can_hold(t)
    }
}

/// The switch after it was updated with the travel distance `travel`
pub open spec fn spec_update(s: Switch, travel: u8) -> Switch {
    let t = Switch { position: travel, ..s };
    if s.rapid_enabled {
        spec_update_rapid(t)
    } else {
        spec_update_normal(t)
    }
}

/// The switch with the default configuration, attached to `mux` and `channel`
pub open spec fn spec_new(mux: u8, channel: u8) -> Switch {
    Switch {
        mux,
        channel,
        position: 0,
        trig_press: 20,
        trig_release: 18,
        rapid_enabled: false,
        rapid_last_position: 0,
        rapid_lower: 4,
        rapid_upper: 4,
        offset: 26,
        index: 0,
        hold_counter: 0,
        state: SwitchState::Unpressed,
    }
}

/// The travel of the raw ADC reading `value`, corrected by the switch offset
pub open spec fn spec_value(s: Switch, travel: TravelTable, value: u8) -> int {
    travel@[value as int] - s.offset
}

/// The reading `value` can be corrected by the switch offset and evaluated
/// without overflowing the hold counter
pub open spec fn can_update_raw(s: Switch, travel: TravelTable, value: u8) -> bool {
    spec_value(s, travel, value) >= 0 && can_update(s, spec_value(s, travel, value) as u8)
}

impl Default for Switch {
    fn default() -> (s: Self)
        ensures
            s == spec_new(0, 0),
    {
        Self {
            position: 0,
            trig_press: 20,
            trig_release: 18,
            rapid_enabled: false,
            rapid_last_position: 0,
            rapid_lower: 4,
            rapid_upper: 4,
            offset: 26,
            mux: 0,
            channel: 0,
            index: 0,
            hold_counter: 0,
            state: SwitchState::Unpressed,
        }
    }
}

impl Switch {
    /// Initialize a new switch with default values
    ///
    /// `mux` is the id of the ADC pin the multiplexer is attached to.
    /// `channel` is the channel of the multiplexer this switch is attached to.
    pub fn new(mux: u8, channel: u8) -> (s: Self)
        ensures
            s == spec_new(mux, channel),
    {
        Self {
            mux,
            channel,
            position: 0,
            trig_press: 20,
            trig_release: 18,
            rapid_enabled: false,
            rapid_last_position: 0,
            rapid_lower: 4,
            rapid_upper: 4,
            offset: 26,
            index: 0,
            hold_counter: 0,
            state: SwitchState::new(),
        }
    }

    /// Calculate the travel distance in 0.1mm of the raw ADC reading `value`,
    /// corrected by the switch offset
    pub fn value(&mut self, value: u8, travel: &TravelTable) -> (t: u8)
        requires
            spec_value(*old(self), *travel, value) >= 0,
        ensures
            t == spec_value(*old(self), *travel, value),
            *final(self) == *old(self),
    {
        travel[value as usize] - self.offset
    }

    /// Update the state of the switch and asociated key with the raw ADC value
    pub fn update_raw(&mut self, value: u8, travel: &TravelTable)
        requires
            can_update_raw(*old(self), *travel, value),
        ensures
            *final(self) == spec_update(*old(self), spec_value(*old(self), *travel, value) as u8),
    {
        let t = self.value(value, travel);
        self.update(t);
    }

    /// Whether evaluating the travel `travel` keeps the hold counter in range
    pub fn fits(&self, travel: u8) -> (b: bool)
        ensures
            b == can_update(*self, travel),
    {
        let hold_ok = (self.state != SwitchState::Held && self.hold_counter >= HOLD_TIME)
            || self.hold_counter < u32::MAX;
        if self.rapid_enabled {
            !(self.state == SwitchState::RapidPressed && travel > self.rapid_last_position.saturating_sub(
                self.rapid_upper,
            )) || hold_ok
        } else {
            !((self.state == SwitchState::Pressed || self.state == SwitchState::Held) && travel
                > self.trig_release) || hold_ok
        }
    }

    /// Whether the raw ADC reading `value` can be handed to
    /// [`Switch::update_raw`]: its travel is at least the switch offset, and
    /// evaluating it keeps the hold counter in range
    pub fn fits_raw(&self, value: u8, travel: &TravelTable) -> (b: bool)
        ensures
            b == can_update_raw(*self, *travel, value),
    {
        let t = travel[value as usize];
        t >= self.offset && self.fits(t - self.offset)
    }

    /// Register a press, remembering where it happened
    pub fn pressed(&mut self, rapid: bool)
        ensures
            *final(self) == spec_pressed(*old(self), rapid),
    {
        if rapid {
            self.state = SwitchState::RapidPressed
        } else {
            self.state = SwitchState::Pressed
        }
        self.rapid_last_position = self.position;
    }

    /// Register a release, remembering where it happened
    pub fn released(&mut self, rapid: bool)
        ensures
            *final(self) == spec_released(*old(self), rapid),
    {
        if rapid && self.position > self.trig_press {
            self.state = SwitchState::RapidUnpressed
        } else {
            self.state = SwitchState::Unpressed
        }
        self.hold_counter = 0;
        self.rapid_last_position = self.position;
    }

    /// Count one more cycle in which the switch stayed down
    pub fn held(&mut self, _rapid: bool)
        requires
            can_hold(*old(self)),
        ensures
            *final(self) == spec_held(*old(self)),
    {
        if !self.state.is_held() && self.hold_counter >= HOLD_TIME {
            // Switch has been in pressed state long enough so we switch to held
            self.hold_counter = 0;
            self.state = SwitchState::Held;
        } else {
            // We keep incrementing the hold counter every cycle
            self.hold_counter += 1;
        }
    }

    /// Evaluate the current position with rapid trigger
    pub fn update_rapid(&mut self)
        requires
            can_update_rapid(*old(self)),
        ensures
            *final(self) == spec_update_rapid(*old(self)),
    {
        if self.state == SwitchState::RapidPressed {
            if self.position <= (self.rapid_last_position.saturating_sub(self.rapid_upper)) {
                self.rapid_last_position = self.position;
                self.released(true)
            } else {
                if self.position > self.rapid_last_position {
                    self.rapid_last_position = self.position;
                }
                self.held(true);
            }
        } else if self.state == SwitchState::RapidUnpressed {
            if self.position >= self.rapid_last_position.saturating_add(self.rapid_lower) {
                self.rapid_last_position = self.position;
                self.pressed(true)
            }
        } else if self.position >= self.trig_press {
            self.rapid_last_position = self.position;
            self.pressed(true)
        }
    }

    /// Update the state of the switch and asociated key with the travel in mm
    pub fn update(&mut self, travel: u8)
        requires
            can_update(*old(self), travel),
        ensures
            *final(self) == spec_update(*old(self), travel),
    {
        self.position = travel;

        if self.rapid_enabled {
            self.update_rapid()
        } else {
            if self.state == SwitchState::Pressed || self.state == SwitchState::Held {
                if self.position <= self.trig_release {
                    self.released(false)
                } else {
                    self.held(false);
                }
            } else if self.position >= self.trig_press {
                self.pressed(false)
            }
        }
    }
}

/// The states the normal (hysteresis) trigger moves a switch between
pub open spec fn normal_state(st: SwitchState) -> bool {
    st == SwitchState::Unpressed || st == SwitchState::Pressed || st == SwitchState::Held
}

/// Hysteresis of the normal trigger: a switch that is up goes down once the
/// travel reaches `trig_press`, and a switch that is down goes up once the
/// travel falls to `trig_release`; in between it keeps its state.
pub proof fn law_normal_trigger_hysteresis(s: Switch, travel: u8)
    requires
        !s.rapid_enabled,
        normal_state(s.state),
    ensures
        normal_state(spec_update(s, travel).state),
        spec_update(s, travel).state.is_down() == if s.state.is_down() {
            travel > s.trig_release
        } else {
            travel >= s.trig_press
        },
{
}

/// Rapid trigger follows the key by relative travel: a rapid pressed switch
/// takes the deepest travel as its reference and releases as soon as the
/// travel rises `rapid_upper` above that reference (stopping at 0); a switch
/// released by rapid trigger keeps the travel where it was released as its
/// reference and presses again as soon as the travel goes `rapid_lower`
/// below it (stopping at 255), wherever `trig_press` lies.
pub proof fn law_rapid_trigger_follows_the_key(s: Switch, travel: u8)
    requires
        s.rapid_enabled,
        s.state == SwitchState::RapidPressed || s.state == SwitchState::RapidUnpressed,
    ensures
        s.state == SwitchState::RapidPressed ==> if travel <= sat_sub(
            s.rapid_last_position,
            s.rapid_upper,
        ) {
            &&& !spec_update(s, travel).state.is_down()
            &&& spec_update(s, travel).rapid_last_position == travel
            &&& spec_update(s, travel).hold_counter == 0
        } else {
            &&& spec_update(s, travel).state.is_down()
            &&& spec_update(s, travel).rapid_last_position == if travel > s.rapid_last_position {
                travel
            } else {
                s.rapid_last_position
            }
        },
        s.state == SwitchState::RapidUnpressed ==> if travel >= sat_add(
            s.rapid_last_position,
            s.rapid_lower,
        ) {
            &&& spec_update(s, travel).state == SwitchState::RapidPressed
            &&& spec_update(s, travel).rapid_last_position == travel
        } else {
            spec_update(s, travel) == (Switch { position: travel, ..s })
        },
{
}

/// The configuration of a switch: its thresholds, rapid trigger settings,
/// offset, wiring and index
pub open spec fn same_configuration(a: Switch, b: Switch) -> bool {
    &&& a.trig_press == b.trig_press
    &&& a.trig_release == b.trig_release
    &&& a.rapid_enabled == b.rapid_enabled
    &&& a.rapid_lower == b.rapid_lower
    &&& a.rapid_upper == b.rapid_upper
    &&& a.offset == b.offset
    &&& a.mux == b.mux
    &&& a.channel == b.channel
    &&& a.index == b.index
}

/// An update only moves the switch: it takes the new travel as its position
/// and keeps its configuration, with rapid trigger or without.
pub proof fn law_update_keeps_configuration(s: Switch, travel: u8)
    ensures
        spec_update(s, travel).position == travel,
        same_configuration(spec_update(s, travel), s),
{
}

/// `n` updates with the same travel
pub open spec fn spec_update_times(s: Switch, travel: u8, n: nat) -> Switch
    decreases n,
{
    if n == 0 {
        s
    } else {
        spec_update(spec_update_times(s, travel, (n - 1) as nat), travel)
    }
}

/// A switch kept down after its press counts one cycle per update and turns
/// into held on the update after `HOLD_TIME` counted cycles, with its
/// counter starting over; every one of these updates is allowed.
pub proof fn law_hold_after_hold_time(s: Switch, travel: u8)
    requires
        !s.rapid_enabled,
        s.state == SwitchState::Pressed,
        s.hold_counter == 0,
        travel > s.trig_release,
    ensures
        forall|n: nat|
            n <= HOLD_TIME ==> #[trigger] spec_update_times(s, travel, n).state
                == SwitchState::Pressed && spec_update_times(s, travel, n).hold_counter == n,
        forall|n: nat|
            n <= HOLD_TIME ==> can_update(#[trigger] spec_update_times(s, travel, n), travel),
        spec_update_times(s, travel, (HOLD_TIME + 1) as nat).state == SwitchState::Held,
        spec_update_times(s, travel, (HOLD_TIME + 1) as nat).hold_counter == 0,
{
    assert forall|n: nat| n <= HOLD_TIME implies #[trigger] spec_update_times(s, travel, n).state
        == SwitchState::Pressed && spec_update_times(s, travel, n).hold_counter == n by {
        lemma_counting_while_held(s, travel, n);
    }
    assert forall|n: nat| n <= HOLD_TIME implies can_update(
        #[trigger] spec_update_times(s, travel, n),
        travel,
    ) by {
        lemma_counting_while_held(s, travel, n);
    }
    lemma_counting_while_held(s, travel, HOLD_TIME as nat);
}

/// Rapid trigger holds too: a rapid pressed switch kept at a travel that
/// neither goes deeper than its reference nor reaches its release point
/// counts one cycle per update and turns into held on the update after
/// `HOLD_TIME` counted cycles, with its counter starting over; every one of
/// these updates is allowed.
pub proof fn law_rapid_hold_after_hold_time(s: Switch, travel: u8)
    requires
        s.rapid_enabled,
        s.state == SwitchState::RapidPressed,
        s.hold_counter == 0,
        sat_sub(s.rapid_last_position, s.rapid_upper) < travel <= s.rapid_last_position,
    ensures
        forall|n: nat|
            n <= HOLD_TIME ==> #[trigger] spec_update_times(s, travel, n).state
                == SwitchState::RapidPressed && spec_update_times(s, travel, n).hold_counter == n,
        forall|n: nat|
            n <= HOLD_TIME ==> can_update(#[trigger] spec_update_times(s, travel, n), travel),
        spec_update_times(s, travel, (HOLD_TIME + 1) as nat).state == SwitchState::Held,
        spec_update_times(s, travel, (HOLD_TIME + 1) as nat).hold_counter == 0,
{
    assert forall|n: nat| n <= HOLD_TIME implies #[trigger] spec_update_times(s, travel, n).state
        == SwitchState::RapidPressed && spec_update_times(s, travel, n).hold_counter == n by {
        lemma_counting_while_rapid_held(s, travel, n);
    }
    assert forall|n: nat| n <= HOLD_TIME implies can_update(
        #[trigger] spec_update_times(s, travel, n),
        travel,
    ) by {
        lemma_counting_while_rapid_held(s, travel, n);
    }
    lemma_counting_while_rapid_held(s, travel, HOLD_TIME as nat);
}

proof fn lemma_counting_while_rapid_held(s: Switch, travel: u8, n: nat)
    requires
        s.rapid_enabled,
        s.state == SwitchState::RapidPressed,
        s.hold_counter == 0,
        sat_sub(s.rapid_last_position, s.rapid_upper) < travel <= s.rapid_last_position,
        n <= HOLD_TIME,
    ensures
        spec_update_times(s, travel, n).state == SwitchState::RapidPressed,
        spec_update_times(s, travel, n).hold_counter == n,
        spec_update_times(s, travel, n).rapid_last_position == s.rapid_last_position,
        spec_update_times(s, travel, n).rapid_upper == s.rapid_upper,
        spec_update_times(s, travel, n).rapid_enabled,
    decreases n,
{
    if n > 0 {
        lemma_counting_while_rapid_held(s, travel, (n - 1) as nat);
    }
}

proof fn lemma_counting_while_held(s: Switch, travel: u8, n: nat)
    requires
        !s.rapid_enabled,
        s.state == SwitchState::Pressed,
        s.hold_counter == 0,
        travel > s.trig_release,
        n <= HOLD_TIME,
    ensures
        spec_update_times(s, travel, n).state == SwitchState::Pressed,
        spec_update_times(s, travel, n).hold_counter == n,
        spec_update_times(s, travel, n).trig_release == s.trig_release,
        !spec_update_times(s, travel, n).rapid_enabled,
    decreases n,
{
    if n > 0 {
        lemma_counting_while_held(s, travel, (n - 1) as nat);
    }
}

} // verus!
