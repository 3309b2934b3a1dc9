//! A switch that reports presses, releases and holds to the keymap.

use vstd::prelude::*;

use crate::layout::{TravelTable, HOLD_TIME, NUM_SWITCHES};
use crate::nkro::keys::{Keymap, KeymapView, NUM_LAYERS};

verus! {

/// A single switch in our keyboard
#[derive(Debug, Copy, Clone)]
pub struct Switch {
    /// Switch position in units of 0.1mm
    pub position: u8,
    /// If the switch is currently pressed
    pub pressed: bool,
    /// Boundry that triggers a press
    pub trig_lower: u8,
    /// Boundry that triggers a release
    pub trig_upper: u8,
    /// If rapid trigger is enabled for this switch,
    pub rapid_enabled: bool,
    /// If the switch is currently pressed
    pub rapid_pressed: bool,
    /// Last position that triggered a press or release
    pub rapid_position: u8,
    /// Boundry that triggers a press
    pub rapid_lower: u8,
    /// Boundry that triggers a release
    pub rapid_upper: u8,
    /// individual position correction
    pub comp: u8,
    /// ID of the mux this switch is attached to
    pub mux: u8,
    /// Channel of the mux this switch is attached to
    pub channel: u8,
    /// Index of the switch used to map it
    /// to a location in the keymaps
    pub index: usize,
    pub hold_counter: u32,
    pub held: bool,
}

/// The default configuration of a switch attached to `mux` and `channel`
pub open spec fn spec_new(mux: u8, channel: u8) -> Switch {
    Switch {
        position: u8::MAX,
        pressed: false,
        trig_lower: 20,
        trig_upper: 22,
        rapid_enabled: false,
        rapid_pressed: false,
        rapid_position: u8::MAX,
        rapid_lower: 4,
        rapid_upper: 4,
        comp: 26,
        mux,
        channel,
        index: 0,
        hold_counter: 0,
        held: false,
    }
}

/// The keymap can take the hold of the switch
pub open spec fn hold_ok(s: Switch, km: KeymapView) -> bool {
    s.index < NUM_SWITCHES && km.active_layer < NUM_LAYERS
}

/// The keymap can take a press of the switch
pub open spec fn press_ok(s: Switch, km: KeymapView) -> bool {
    km.set_key_ok(s.index as int, true, false)
}

/// The keymap can take a release of the switch
pub open spec fn release_ok(s: Switch, km: KeymapView) -> bool {
    &&& km.set_key_ok(s.index as int, false, s.held)
    &&& s.held ==> hold_ok(s, km.with_key(s.index as int, false, s.held))
}

/// The switch after a press, and the keymap it pressed its key in
pub open spec fn spec_pressed(s: Switch, rapid: bool, km: KeymapView) -> (Switch, KeymapView) {
    (
        Switch {
            rapid_pressed: if rapid { true } else { s.rapid_pressed },
            pressed: if rapid { s.pressed } else { true },
            rapid_position: s.position,
            ..s
        },
        km.with_key(s.index as int, true, false),
    )
}

/// The switch after a release, and the keymap it released its key in,
/// ending the hold when it was held
pub open spec fn spec_released(s: Switch, rapid: bool, km: KeymapView) -> (Switch, KeymapView) {
    let km1 = km.with_key(s.index as int, false, s.held);
    (
        Switch {
            rapid_pressed: false,
            pressed: if rapid { s.pressed } else { false },
            rapid_position: s.position,
            held: false,
            ..s
        },
        if s.held { km1.with_hold(s.index as int, false) } else { km1 },
    )
}

/// One more cycle down starts the hold
pub open spec fn hold_triggers(s: Switch) -> bool {
    !s.held && s.hold_counter >= HOLD_TIME
}

/// The keymap and the hold counter can take one more cycle down
pub open spec fn held_ok(s: Switch, km: KeymapView) -> bool {
    if hold_triggers(s) {
        hold_ok(s, km)
    } else {
        s.hold_counter < u32::MAX
    }
}

/// The switch after one more cycle down, and the keymap it started its hold in
pub open spec fn spec_held(s: Switch, km: KeymapView) -> (Switch, KeymapView) {
    if hold_triggers(s) {
        (Switch { held: true, hold_counter: 0, ..s }, km.with_hold(s.index as int, true))
    } else {
        (Switch { hold_counter: (s.hold_counter + 1) as u32, ..s }, km)
    }
}

/// Rapid trigger evaluation stays inside `u8` and the keymap
pub open spec fn update_rapid_ok(s: Switch, km: KeymapView) -> bool {
    if s.rapid_pressed {
        &&& s.rapid_position + s.rapid_upper <= u8::MAX
        &&& if s.position >= s.rapid_position + s.rapid_upper {
            release_ok(Switch { rapid_position: s.position, ..s }, km)
        } else {
            held_ok(s, km)
        }
    } else {
        &&& s.rapid_position >= s.rapid_lower
        &&& s.position <= s.rapid_position - s.rapid_lower ==> press_ok(s, km)
    }
}

/// The switch after one rapid trigger evaluation, and the keymap it acted on
pub open spec fn spec_update_rapid(s: Switch, km: KeymapView) -> (Switch, KeymapView) {
    if s.rapid_pressed {
        if s.position >= s.rapid_position + s.rapid_upper {
            spec_released(Switch { rapid_position: s.position, ..s }, true, km)
        } else {
            spec_held(s, km)
        }
    } else if s.position <= s.rapid_position - s.rapid_lower {
        spec_pressed(Switch { rapid_position: s.position, ..s }, true, km)
    } else {
        (s, km)
    }
}

/// The normal trigger can evaluate the current position
pub open spec fn update_normal_ok(s: Switch, km: KeymapView) -> bool {
    if s.pressed {
        if s.position >= s.trig_upper {
            release_ok(s, km)
        } else {
            held_ok(s, km)
        }
    } else {
        s.position <= s.trig_lower ==> press_ok(s, km)
    }
}

/// The switch after one normal trigger evaluation of its current position:
/// it presses at or below `trig_lower` and releases at or above `trig_upper`
pub open spec fn spec_update_normal(s: Switch, km: KeymapView) -> (Switch, KeymapView) {
    if s.pressed {
        if s.position >= s.trig_upper {
            spec_released(s, false, km)
        } else {
            spec_held(s, km)
        }
    } else if s.position <= s.trig_lower {
        spec_pressed(s, false, km)
    } else {
        (s, km)
    }
}

/// The corrected position of the raw ADC reading `value`
pub open spec fn position_of(s: Switch, value: u8, travel: Seq<u8>) -> int {
    travel[value as int] - s.comp
}

/// Updating with the raw reading `value` stays inside `u8` and the keymap
pub open spec fn update_ok(s: Switch, value: u8, travel: Seq<u8>, km: KeymapView) -> bool {
    let s1 = Switch { position: position_of(s, value, travel) as u8, ..s };
    &&& travel[value as int] >= s.comp
    &&& update_normal_ok(s1, km)
    &&& s.rapid_enabled ==> update_rapid_ok(spec_update_normal(s1, km).0, spec_update_normal(s1, km).1)
}

/// The switch after it was updated with the raw reading `value`, and the
/// keymap it acted on
pub open spec fn spec_update(s: Switch, value: u8, travel: Seq<u8>, km: KeymapView) -> (
    Switch,
    KeymapView,
) {
    let s1 = Switch { position: position_of(s, value, travel) as u8, ..s };
    let (s2, km2) = spec_update_normal(s1, km);
    if s.rapid_enabled {
        spec_update_rapid(s2, km2)
    } else {
        (s2, km2)
    }
}

impl Default for Switch {
    fn default() -> (s: Self)
        ensures
            s == spec_new(0, 0),
    {
        Self {
            position: u8::MAX,
            pressed: false,
            trig_lower: 20,
            trig_upper: 22,
            rapid_enabled: false,
            rapid_pressed: false,
            rapid_position: u8::MAX,
            rapid_lower: 4,
            rapid_upper: 4,
            comp: 26,
            mux: 0,
            channel: 0,
            index: 0,
            hold_counter: 0,
            held: false,
        }
    }
}

impl Switch {
    /// Initialize a new switch with default values
    ///
    /// `mux` is the id of the ADC pin the multiplexer is attached to.
    /// `channel` is the channel of the multiplexer this switch is attached to.
    pub fn new(mux: u8, channel: u8) -> (s: Self)
        ensures
            s == spec_new(mux, channel),
    {
        Self { mux, channel, ..Default::default() }
    }

    /// Set the position of the switch based on raw ADC value
    pub fn value(&mut self, value: u8, travel: &TravelTable) -> (position: u8)
        requires
            travel@[value as int] >= old(self).comp,
        ensures
            position == position_of(*old(self), value, travel@),
            *final(self) == (Switch { position, ..*old(self) }),
    {
        self.position = travel[value as usize] - self.comp;
        self.position
    }

    /// Update the state of the switch and asociated key with the raw ADC value
    pub fn update(&mut self, value: u8, travel: &TravelTable, keymap: &mut Keymap)
        requires
            update_ok(*old(self), value, travel@, old(keymap)@),
        ensures
            (*final(self), final(keymap)@) == spec_update(*old(self), value, travel@, old(keymap)@),
    {
        self.position = self.value(value, travel);
        if self.pressed {
            if self.position >= self.trig_upper {
                self.released(false, keymap)
            } else {
                self.held(false, keymap);
            }
        } else if self.position <= self.trig_lower {
            self.pressed(false, keymap)
        }
        if self.rapid_enabled {
            self.update_rapid(keymap)
        }
    }

    /// Register a press and press the key in the keymap
    pub fn pressed(&mut self, rapid: bool, keymap: &mut Keymap)
        requires
            press_ok(*old(self), old(keymap)@),
        ensures
            (*final(self), final(keymap)@) == spec_pressed(*old(self), rapid, old(keymap)@),
    {
        if rapid {
            self.rapid_pressed = true;
        } else {
            self.pressed = true;
        }
        self.rapid_position = self.position;
        keymap.set_key(self.index, true, false);
    }

    /// Register a release, release the key in the keymap and end its hold
    pub fn released(&mut self, rapid: bool, keymap: &mut Keymap)
        requires
            release_ok(*old(self), old(keymap)@),
        ensures
            (*final(self), final(keymap)@) == spec_released(*old(self), rapid, old(keymap)@),
    {
        if rapid {
            self.rapid_pressed = false;
        } else {
            self.rapid_pressed = false;
            self.pressed = false;
        }
        self.rapid_position = self.position;
        keymap.set_key(self.index, false, self.held);
        if self.held {
            self.held = false;
            keymap.set_hold(self.index, false);
        }
    }

    /// Count one more cycle down, starting the hold once it lasted long enough
    pub fn held(&mut self, _rapid: bool, keymap: &mut Keymap)
        requires
            held_ok(*old(self), old(keymap)@),
        ensures
            (*final(self), final(keymap)@) == spec_held(*old(self), old(keymap)@),
    {
        if !self.held && self.hold_counter >= HOLD_TIME {
            self.held = true;
            self.hold_counter = 0;
            keymap.set_hold(self.index, true);
        } else {
            self.hold_counter += 1;
        }
    }

    /// Evaluate the current position with rapid trigger
    pub fn update_rapid(&mut self, keymap: &mut Keymap)
        requires
            update_rapid_ok(*old(self), old(keymap)@),
        ensures
            (*final(self), final(keymap)@) == spec_update_rapid(*old(self), old(keymap)@),
    {
        if self.rapid_pressed {
            if self.position >= (self.rapid_position + self.rapid_upper) {
                self.rapid_position = self.position;
                self.released(true, keymap)
            } else {
                self.held(true, keymap);
            }
        } else if self.position <= (self.rapid_position - self.rapid_lower) {
            self.rapid_position = self.position;
            self.pressed(true, keymap)
        }
    }
}

/// Rapid trigger acts after the normal trigger, on the switch and keymap the
/// normal trigger left: a switch that is not rapid pressed and whose
/// position fell `rapid_lower` below its rapid position becomes rapid
/// pressed there and presses its key; a rapid pressed switch whose position
/// rose `rapid_upper` above its rapid position is released there and
/// releases its key; otherwise it stays as the normal trigger left it.
/// Without rapid trigger only the normal trigger acts.
pub proof fn law_rapid_trigger_after_normal(s: Switch, value: u8, travel: Seq<u8>, km: KeymapView)
    ensures
        ({
            let p = position_of(s, value, travel) as u8;
            let (n, nk) = spec_update_normal(Switch { position: p, ..s }, km);
            let (r, rk) = spec_update(s, value, travel, km);
            &&& r.position == p
            &&& !s.rapid_enabled ==> r == n && rk == nk
            &&& s.rapid_enabled && !n.rapid_pressed && p <= n.rapid_position - n.rapid_lower ==> {
                &&& r.rapid_pressed
                &&& r.rapid_position == p
                &&& r.pressed == n.pressed
                &&& rk == nk.with_key(s.index as int, true, false)
            }
            &&& s.rapid_enabled && n.rapid_pressed && p >= n.rapid_position + n.rapid_upper ==> {
                &&& !r.rapid_pressed
                &&& !r.held
                &&& r.rapid_position == p
                &&& r.pressed == n.pressed
                &&& rk == if n.held {
                    nk.with_key(s.index as int, false, true).with_hold(s.index as int, false)
                } else {
                    nk.with_key(s.index as int, false, false)
                }
            }
            &&& s.rapid_enabled && !n.rapid_pressed && p > n.rapid_position - n.rapid_lower ==> r
                == n && rk == nk
        }),
{
}

/// Hysteresis of the normal trigger: a switch that is up goes down once its
/// position reaches `trig_lower` and presses its key, a switch that is down
/// goes up once its position reaches `trig_upper` and releases its key; in
/// between it stays as it was.
pub proof fn law_normal_trigger_hysteresis(s: Switch, value: u8, travel: Seq<u8>, km: KeymapView)
    requires
        !s.rapid_enabled,
    ensures
        ({
            let p = position_of(s, value, travel) as u8;
            let (r, rk) = spec_update(s, value, travel, km);
            &&& r.pressed == if s.pressed {
                p < s.trig_upper
            } else {
                p <= s.trig_lower
            }
            &&& !s.pressed && p <= s.trig_lower ==> rk == km.with_key(s.index as int, true, false)
            &&& !s.pressed && p > s.trig_lower ==> rk == km
            &&& s.pressed && p >= s.trig_upper ==> rk == if s.held {
                km.with_key(s.index as int, false, true).with_hold(s.index as int, false)
            } else {
                km.with_key(s.index as int, false, false)
            }
        }),
{
}

} // verus!
