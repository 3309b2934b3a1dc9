//! State of the keyboard report and resolution of switches to key actions.
//!
//! Keycodes are USB HID usage IDs of the keyboard page, held as `u8`.

use vstd::prelude::*;

use crate::layout::NUM_SWITCHES;
use crate::matrix::scan_order::ScanOrder;
use crate::matrix::switch::{Switch, SwitchState};

verus! {

/// Number of layers a keymap has
pub const NUM_LAYERS: usize = 32;

/// Number of keycodes a keyboard report can carry, plus as many one shot keycodes
pub const NUM_KEYCODES: usize = 462;

/// Number of key positions per layer in the keyboard report
pub const NUM_KEY_POSITIONS: usize = 8;

/// Number of entries in the keyboard report (`NUM_KEY_POSITIONS * NUM_LAYERS`)
pub const MATRIX_LEN: usize = 256;

/// No key is pressed
pub const NO_EVENT_INDICATED: u8 = 0x00;

/// Keycode of `a` and `A`
pub const KEY_A: u8 = 0x04;

/// Keycode of `b` and `B`
pub const KEY_B: u8 = 0x05;

/// Keycode of `1` and `!`
pub const KEYBOARD_1: u8 = 0x1E;

/// Keycode of `2` and `@`
pub const KEYBOARD_2: u8 = 0x1F;

/// Keycode of `3` and `#`
pub const KEYBOARD_3: u8 = 0x20;

/// Keycode of `4` and `$`
pub const KEYBOARD_4: u8 = 0x21;

/// Keycode of `5` and `%`
pub const KEYBOARD_5: u8 = 0x22;

/// Keycode of the escape key
pub const ESCAPE: u8 = 0x29;

/// Keycode of the grave accent and tilde key
pub const GRAVE: u8 = 0x35;

/// Keycode of the left shift key
pub const LEFT_SHIFT: u8 = 0xE1;

/// Keycode of the right shift key
pub const RIGHT_SHIFT: u8 = 0xE5;

/// A single key position in a [`Layer`]
#[derive(Debug, Copy, Clone)]
pub enum Key {
    /// Emit a regular USB HID Keycode like letters or numbers
    Keycode(u8),
    /// Use [`Layer`] `n` while held.
    ///
    /// This position should be a [`Key::Trns`] key on [`Layer`] `n`
    Layer(usize),
    /// [`Layer`] `n` while held, keycode when tapped.
    LayerTap(usize, u8),
    /// keycode `x` while held, keycode `y` when tapped.
    KeyTap(u8, u8),
    /// Escape regularly, Grave (`) while shift is pressed
    GrvEsc,
    /// Transparent: Pass this key to the [`Layer`] below
    Trns,
    /// No key action
    Dead,
}

impl Key {
    fn default() -> (k: Key)
        ensures
            k == Key::Dead,
    {
        Key::Dead
    }
}

/// A map of logical key actions to physical key positions
pub type Layer = [Key; NUM_SWITCHES];

/// What changed in the keyboard, for the other half of a split keyboard
#[derive(Debug, Copy, Clone)]
pub enum KeyboardEvent {
    /// Key position, layer and the keycode now reported there
    Keycode(u8, u8, u8),
    /// The layer that is now active
    Layer(u8),
}

#[derive(Debug, Copy, Clone)]
pub struct Keymap {
    pub layers: [Layer; NUM_LAYERS],
    pub active_layer: usize,
}

impl Keymap {
    /// The key at position `index` of layer `layer`
    pub open spec fn key(self, layer: int, index: int) -> Key {
        self.layers@[layer]@[index]
    }

    /// A keymap whose keys are all [`Key::Dead`], with layer 0 active
    pub fn default() -> (k: Keymap)
        ensures
            k.active_layer == 0,
            forall|l: int, i: int|
                0 <= l < NUM_LAYERS && 0 <= i < NUM_SWITCHES ==> #[trigger] k.key(l, i) == Key::Dead,
    {
        Keymap { layers: [[Key::default();NUM_SWITCHES];NUM_LAYERS], active_layer: 0 }
    }

    /// Set `layer` active or inactive based on `state`
    pub fn set_layer(&mut self, state: SwitchState, layer: usize) -> (ev: KeyboardEvent)
        ensures
            *final(self) == (Keymap {
                active_layer: if state.is_down() { layer } else { 0 },
                ..*old(self)
            }),
            ev == KeyboardEvent::Layer(if state.is_down() { layer as u8 } else { 0 }),
    {
        if state.is_pressed() {
            self.active_layer = layer;
            KeyboardEvent::Layer(layer as u8)
        } else {
            self.active_layer = 0;
            KeyboardEvent::Layer(0)
        }
    }
}

/// The keyboard report, the keymap and the pending taps, as values
pub struct KeyboardView {
    pub matrix: Seq<u8>,
    pub keymap: Keymap,
    pub taps: Seq<bool>,
}

/// Represents the state of the keyboard report as send through
/// USB and maps the physical switch states to the logical keymap
#[derive(Copy, Clone)]
pub struct KeyboardState {
    pub matrix: [u8; MATRIX_LEN],
    pub keymap: Keymap,
    /// For each key position, whether its tap key went down and has not been
    /// held yet: released like this it was tapped
    pub taps: [bool; NUM_SWITCHES],
}

impl View for KeyboardState {
    type V = KeyboardView;

    open spec fn view(&self) -> KeyboardView {
        KeyboardView { matrix: self.matrix@, keymap: self.keymap, taps: self.taps@ }
    }
}

/// The layer that decides what the switch at key position `index` does,
/// and the key it holds there, looking at that position from layer `layer`
/// downwards past transparent keys; `None` when every layer down to 0 is
/// transparent there
pub open spec fn resolve(km: Keymap, index: int, layer: int) -> Option<(int, Key)>
    decreases layer + 1,
{
    if layer < 0 {
        None
    } else {
        match km.key(layer, index) {
            Key::Trns => resolve(km, index, layer - 1),
            k => Some((layer, k)),
        }
    }
}

/// Layers stack: the key of the switch at key position `index` is taken
/// from the highest layer at or below `layer` whose key at that same
/// position is not transparent, and every layer above that one, up to
/// `layer`, is transparent at that position; when there is no such layer
/// the switch does nothing.
pub proof fn law_resolve_takes_topmost_opaque_layer(km: Keymap, index: int, layer: int)
    ensures
        match resolve(km, index, layer) {
            Some((l, k)) => {
                &&& 0 <= l <= layer
                &&& k == km.key(l, index)
                &&& !(k is Trns)
                &&& forall|j: int| l < j <= layer ==> #[trigger] km.key(j, index) is Trns
            },
            None => forall|j: int| 0 <= j <= layer ==> #[trigger] km.key(j, index) is Trns,
        },
    decreases layer + 1,
{
    if layer >= 0 {
        law_resolve_takes_topmost_opaque_layer(km, index, layer - 1);
    }
}

/// Where the one shot keycode of key position `index` is reported: in the
/// upper half of the report, which is cleared after every report
pub open spec fn oneshot_slot(index: int) -> int {
    NUM_KEYCODES / 2 + index
}

/// The report with the one shot keycode of key position `index` set
pub open spec fn spec_set_oneshot(v: KeyboardView, index: int, keycode: u8) -> KeyboardView {
    KeyboardView { matrix: v.matrix.update(oneshot_slot(index), keycode), ..v }
}

/// The report with every one shot keycode cleared
pub open spec fn spec_clear_oneshot(v: KeyboardView) -> KeyboardView {
    KeyboardView {
        matrix: Seq::new(
            v.matrix.len(),
            |i: int|
                if NUM_KEYCODES / 2 <= i < NUM_KEYCODES {
                    NO_EVENT_INDICATED
                } else {
                    v.matrix[i]
                },
        ),
        ..v
    }
}

/// The report after the key at report position `index * layer` took `state`
pub open spec fn spec_set_keycode(
    v: KeyboardView,
    index: int,
    layer: int,
    state: SwitchState,
    keycode: u8,
) -> (KeyboardView, Option<KeyboardEvent>) {
    let at = index * layer;
    let current = v.matrix[at];
    if state.is_down() && current == NO_EVENT_INDICATED {
        (
            KeyboardView { matrix: v.matrix.update(at, keycode), ..v },
            Some(KeyboardEvent::Keycode(index as u8, layer as u8, keycode)),
        )
    } else if !state.is_down() && current != NO_EVENT_INDICATED {
        (
            KeyboardView { matrix: v.matrix.update(at, NO_EVENT_INDICATED), ..v },
            Some(KeyboardEvent::Keycode(index as u8, layer as u8, NO_EVENT_INDICATED)),
        )
    } else {
        (v, None)
    }
}

/// A shift key is reported
pub open spec fn shifted(v: KeyboardView) -> bool {
    v.matrix.contains(LEFT_SHIFT) || v.matrix.contains(RIGHT_SHIFT)
}

/// Handling switch `s` stays inside the keymap: the active layer and the
/// key position of the switch exist
pub open spec fn key_update_ok(v: KeyboardView, s: Switch) -> bool {
    &&& v.keymap.active_layer < NUM_LAYERS
    &&& s.index < NUM_SWITCHES
}

/// What a [`Key::LayerTap`] at key position `index` does in `state`: held,
/// it makes layer `n` active; down but not held yet, it waits to see whether
/// it is tapped; released after such a tap it reports `keycode` once; and
/// released while layer `n` is active, it goes back to layer 0
pub open spec fn spec_layer_tap(
    v: KeyboardView,
    index: int,
    n: usize,
    keycode: u8,
    state: SwitchState,
) -> (KeyboardView, Option<KeyboardEvent>) {
    if state == SwitchState::Held {
        let w = KeyboardView { taps: v.taps.update(index, false), ..v };
        if v.keymap.active_layer != n {
            (
                KeyboardView { keymap: Keymap { active_layer: n, ..v.keymap }, ..w },
                Some(KeyboardEvent::Layer(n as u8)),
            )
        } else {
            (w, None)
        }
    } else if state.is_down() {
        (KeyboardView { taps: v.taps.update(index, true), ..v }, None)
    } else if state == SwitchState::OneShot {
        (spec_set_oneshot(v, index, keycode), None)
    } else {
        let w = if v.taps[index] {
            KeyboardView { taps: v.taps.update(index, false), ..spec_set_oneshot(v, index, keycode) }
        } else {
            v
        };
        if v.keymap.active_layer == n && n != 0 {
            (
                KeyboardView { keymap: Keymap { active_layer: 0, ..v.keymap }, ..w },
                Some(KeyboardEvent::Layer(0)),
            )
        } else {
            (w, None)
        }
    }
}

/// What a [`Key::KeyTap`] at key position `index` on report layer `layer`
/// does in `state`: held, it reports `hold`; down but not held yet, it waits
/// to see whether it is tapped; released after such a tap it reports `tap`
/// once; otherwise released, it takes `hold` back
pub open spec fn spec_key_tap(
    v: KeyboardView,
    index: int,
    layer: int,
    hold: u8,
    tap: u8,
    state: SwitchState,
) -> (KeyboardView, Option<KeyboardEvent>) {
    if state == SwitchState::Held {
        spec_set_keycode(KeyboardView { taps: v.taps.update(index, false), ..v }, index, layer, state, hold)
    } else if state.is_down() {
        (KeyboardView { taps: v.taps.update(index, true), ..v }, None)
    } else if state == SwitchState::OneShot {
        (spec_set_oneshot(v, index, tap), None)
    } else if v.taps[index] {
        (KeyboardView { taps: v.taps.update(index, false), ..spec_set_oneshot(v, index, tap) }, None)
    } else {
        spec_set_keycode(v, index, layer, state, hold)
    }
}

/// The keyboard after switch `s` was handled, and what changed: the key it
/// resolves to on layer `l` acts at the switch's key position, on report
/// layer `l + 1`
pub open spec fn spec_update_key(v: KeyboardView, s: Switch) -> (KeyboardView, Option<
    KeyboardEvent,
>) {
    match resolve(v.keymap, s.index as int, v.keymap.active_layer as int) {
        None => (v, None),
        Some((l, k)) => {
            let index = s.index as int;
            let layer = l + 1;
            match k {
                Key::Keycode(code) => spec_set_keycode(v, index, layer, s.state, code),
                Key::Layer(n) => (
                    KeyboardView {
                        keymap: Keymap {
                            active_layer: if s.state.is_down() { n } else { 0 },
                            ..v.keymap
                        },
                        ..v
                    },
                    Some(KeyboardEvent::Layer(if s.state.is_down() { n as u8 } else { 0 })),
                ),
                Key::LayerTap(n, code) => spec_layer_tap(v, index, n, code, s.state),
                Key::KeyTap(hold, tap) => spec_key_tap(v, index, layer, hold, tap, s.state),
                Key::GrvEsc => spec_set_keycode(
                    v,
                    index,
                    layer,
                    s.state,
                    if shifted(v) { GRAVE } else { ESCAPE },
                ),
                _ => (v, None),
            }
        },
    }
}

/// The events of an optional event
pub open spec fn events_of(e: Option<KeyboardEvent>) -> Seq<KeyboardEvent> {
    match e {
        Some(ev) => seq![ev],
        None => seq![],
    }
}

/// The keyboard after the switches were handled in order, with the events in
/// the order they happened; `None` when a switch leaves the keymap or report
pub open spec fn spec_run(v: KeyboardView, switches: Seq<Switch>) -> Option<
    (KeyboardView, Seq<KeyboardEvent>),
>
    decreases switches.len(),
{
    if switches.len() == 0 {
        Some((v, seq![]))
    } else {
        match spec_run(v, switches.drop_last()) {
            None => None,
            Some((w, evs)) => if key_update_ok(w, switches.last()) {
                let (x, e) = spec_update_key(w, switches.last());
                Some((x, evs + events_of(e)))
            } else {
                None
            },
        }
    }
}

/// The switches of the scan order in scan order
pub open spec fn scanned_switches(order: ScanOrder) -> Seq<Switch> {
    Seq::new(
        (crate::layout::NUM_CHANNELS * crate::layout::NUM_MUX) as nat,
        |k: int| order.at(k / crate::layout::NUM_MUX as int, k % crate::layout::NUM_MUX as int),
    )
}

proof fn lemma_run_none_extends(v: KeyboardView, switches: Seq<Switch>, k: int)
    requires
        0 <= k <= switches.len(),
        spec_run(v, switches.take(k)) is None,
    ensures
        spec_run(v, switches) is None,
    decreases switches.len() - k,
{
    if k < switches.len() {
        assert(switches.take(k + 1).drop_last() =~= switches.take(k));
        lemma_run_none_extends(v, switches, k + 1);
    } else {
        assert(switches.take(k) =~= switches);
    }
}

proof fn lemma_run_prefix(v: KeyboardView, switches: Seq<Switch>, k: int)
    requires
        spec_run(v, switches) is Some,
        0 <= k <= switches.len(),
    ensures
        spec_run(v, switches.take(k)) is Some,
    decreases switches.len(),
{
    if k < switches.len() {
        assert(switches.drop_last().take(k) =~= switches.take(k));
        lemma_run_prefix(v, switches.drop_last(), k);
    } else {
        assert(switches.take(k) =~= switches);
    }
}

impl KeyboardState {
    pub fn new(keymap: Keymap) -> (s: KeyboardState)
        ensures
            s@.keymap == keymap,
            s@.matrix == Seq::new(MATRIX_LEN as nat, |i: int| NO_EVENT_INDICATED),
            s@.taps == Seq::new(NUM_SWITCHES as nat, |i: int| false),
    {
        let s = KeyboardState {
            matrix: [NO_EVENT_INDICATED;MATRIX_LEN],
            keymap,
            taps: [false, false, false, false, false, false, false, false],
        };
        assert(s@.matrix =~= Seq::new(MATRIX_LEN as nat, |i: int| NO_EVENT_INDICATED));
        assert(s@.taps =~= Seq::new(NUM_SWITCHES as nat, |i: int| false));
        s
    }

    /// Handle every switch of the scan order, in scan order, and return what
    /// changed in the order it changed
    pub fn update(&mut self, scan: &ScanOrder) -> (events: Vec<KeyboardEvent>)
        requires
            spec_run(old(self)@, scanned_switches(*scan)) is Some,
        ensures
            spec_run(old(self)@, scanned_switches(*scan)) == Some((final(self)@, events@)),
    {
        let ghost all = scanned_switches(*scan);
        let ghost start = self@;
        let mut events: Vec<KeyboardEvent> = Vec::new();
        let total = crate::layout::NUM_CHANNELS * crate::layout::NUM_MUX;
        let mut k: usize = 0;
        assert(all.take(0) =~= seq![]);
        while k < total
            invariant
                total == all.len(),
                0 <= k <= total,
                all == scanned_switches(*scan),
                spec_run(start, all) is Some,
                spec_run(start, all.take(k as int)) == Some((self@, events@)),
            decreases total - k,
        {
            proof {
                lemma_run_prefix(start, all, k + 1);
                assert(all.take(k + 1).drop_last() =~= all.take(k as int));
            }
            let s = scan.scans[k / crate::layout::NUM_MUX].switches[k % crate::layout::NUM_MUX];
            assert(s == all[k as int]);
            let e = self.update_keys(s);
            match e {
                Some(ev) => events.push(ev),
                None => {},
            }
            assert(events@ =~= spec_run(start, all.take(k + 1)).unwrap().1);
            k = k + 1;
        }
        assert(all.take(total as int) =~= all);
        events
    }

    /// Like [`KeyboardState::update`], but stops with `None` before the
    /// first switch that would leave the keymap or the report
    pub fn try_update(&mut self, scan: &ScanOrder) -> (events: Option<Vec<KeyboardEvent>>)
        ensures
            match events {
                Some(evs) => spec_run(old(self)@, scanned_switches(*scan)) == Some(
                    (final(self)@, evs@),
                ),
                None => {
                    &&& spec_run(old(self)@, scanned_switches(*scan)) is None
                    &&& exists|k: int|
                        0 <= k < scanned_switches(*scan).len() && #[trigger] spec_run(
                            old(self)@,
                            scanned_switches(*scan).take(k),
                        ) is Some && spec_run(old(self)@, scanned_switches(*scan).take(k)).unwrap().0
                            == final(self)@ && !key_update_ok(final(self)@, scanned_switches(*scan)[k])
                },
            },
    {
        let ghost all = scanned_switches(*scan);
        let ghost start = self@;
        let mut events: Vec<KeyboardEvent> = Vec::new();
        let total = crate::layout::NUM_CHANNELS * crate::layout::NUM_MUX;
        let mut k: usize = 0;
        assert(all.take(0) =~= seq![]);
        while k < total
            invariant
                total == all.len(),
                0 <= k <= total,
                all == scanned_switches(*scan),
                start == old(self)@,
                spec_run(start, all.take(k as int)) == Some((self@, events@)),
            decreases total - k,
        {
            proof {
                assert(all.take(k + 1).drop_last() =~= all.take(k as int));
            }
            let s = scan.scans[k / crate::layout::NUM_MUX].switches[k % crate::layout::NUM_MUX];
            assert(s == all[k as int]);
            if !self.handles(s) {
                proof {
                    assert(all.take(k + 1).last() == s);
                    assert(spec_run(start, all.take(k + 1)) is None);
                    lemma_run_none_extends(start, all, k as int + 1);
                    assert(spec_run(start, all.take(k as int)) is Some && spec_run(start, all.take(k as int)).unwrap().0 == self@
                        && !key_update_ok(self@, all[k as int]));

                }
                return None;
            }
            let e = self.update_keys(s);
            match e {
                Some(ev) => events.push(ev),
                None => {},
            }
            assert(events@ =~= spec_run(start, all.take(k + 1)).unwrap().1);
            k = k + 1;
        }
        assert(all.take(total as int) =~= all);
        Some(events)
    }

    /// Whether handling switch `s` stays inside the keymap
    pub fn handles(&self, s: Switch) -> (ok: bool)
        ensures
            ok == key_update_ok(self@, s),
    {
        self.keymap.active_layer < NUM_LAYERS && s.index < NUM_SWITCHES
    }

    /// Clear all one shot keycodes, the upper half of the report
    pub fn clear_oneshot(&mut self)
        ensures
            final(self)@ == spec_clear_oneshot(old(self)@),
    {
        let mut i: usize = NUM_KEYCODES / 2;
        while i < MATRIX_LEN && i < NUM_KEYCODES
            invariant
                NUM_KEYCODES / 2 <= i <= MATRIX_LEN,
                self.keymap == old(self).keymap,
                forall|j: int|
                    0 <= j < MATRIX_LEN ==> #[trigger] self.matrix@[j] == if NUM_KEYCODES / 2 <= j
                        < i {
                        NO_EVENT_INDICATED
                    } else {
                        old(self).matrix@[j]
                    },
                self.taps == old(self).taps,
            decreases MATRIX_LEN - i,
        {
            self.matrix[i] = NO_EVENT_INDICATED;
            i = i + 1;
        }
        assert(self@.matrix =~= spec_clear_oneshot(old(self)@).matrix);
    }

    /// Set keycode or clear keycode
    pub fn set_keycode(&mut self, index: usize, layer: usize, state: SwitchState, keycode: u8) -> (ev:
        Option<KeyboardEvent>)
        requires
            index * layer < MATRIX_LEN,
        ensures
            (final(self)@, ev) == spec_set_keycode(
                old(self)@,
                index as int,
                layer as int,
                state,
                keycode,
            ),
    {
        let at = index * layer;
        let k = self.matrix[at];
        if state.is_pressed() && k == NO_EVENT_INDICATED {
            self.matrix[at] = keycode;
            Some(KeyboardEvent::Keycode(index as u8, layer as u8, keycode))
        } else if !state.is_pressed() && k != NO_EVENT_INDICATED {
            self.matrix[at] = NO_EVENT_INDICATED;
            Some(KeyboardEvent::Keycode(index as u8, layer as u8, NO_EVENT_INDICATED))
        } else {
            None
        }
    }

    /// Activate a keycode to be active exactly once in the next USB HID Report.
    ///
    /// The keycode of key position `index` goes to the upper half of the
    /// report, which [`KeyboardState::clear_oneshot`] clears after the report
    /// was sent.
    pub fn set_oneshot_keycode(&mut self, index: usize, keycode: u8)
        requires
            oneshot_slot(index as int) < MATRIX_LEN,
        ensures
            final(self)@ == spec_set_oneshot(old(self)@, index as int, keycode),
    {
        self.matrix[NUM_KEYCODES / 2 + index] = keycode;
    }

    fn reports(&self, keycode: u8) -> (b: bool)
        ensures
            b == self@.matrix.contains(keycode),
    {
        let mut i: usize = 0;
        while i < MATRIX_LEN
            invariant
                0 <= i <= MATRIX_LEN,
                forall|j: int| 0 <= j < i ==> self.matrix@[j] != keycode,
            decreases MATRIX_LEN - i,
        {
            if self.matrix[i] == keycode {
                assert(self@.matrix[i as int] == keycode);
                return true;
            }
            i = i + 1;
        }
        false
    }

    /// Apply a [`Key::LayerTap`] at key position `index` in `state`
    fn layer_tap(&mut self, index: usize, n: usize, keycode: u8, state: SwitchState) -> (ev: Option<
        KeyboardEvent,
    >)
        requires
            index < NUM_SWITCHES,
        ensures
            (final(self)@, ev) == spec_layer_tap(old(self)@, index as int, n, keycode, state),
    {
        if state.is_held() {
            self.taps[index] = false;
            if self.keymap.active_layer != n {
                return Some(self.keymap.set_layer(state, n));
            }
            None
        } else if state.is_pressed() {
            self.taps[index] = true;
            None
        } else if state.is_oneshot() {
            self.set_oneshot_keycode(index, keycode);
            None
        } else {
            if self.taps[index] {
                self.set_oneshot_keycode(index, keycode);
                self.taps[index] = false;
            }
            if self.keymap.active_layer == n && n != 0 {
                return Some(self.keymap.set_layer(state, n));
            }
            None
        }
    }

    /// Apply a [`Key::KeyTap`] at key position `index` on report layer `layer`
    /// in `state`
    fn key_tap(&mut self, index: usize, layer: usize, hold: u8, tap: u8, state: SwitchState) -> (ev:
        Option<KeyboardEvent>)
        requires
            index < NUM_SWITCHES,
            index * layer < MATRIX_LEN,
        ensures
            (final(self)@, ev) == spec_key_tap(old(self)@, index as int, layer as int, hold, tap, state),
    {
        if state.is_held() {
            self.taps[index] = false;
            self.set_keycode(index, layer, state, hold)
        } else if state.is_pressed() {
            self.taps[index] = true;
            None
        } else if state.is_oneshot() {
            self.set_oneshot_keycode(index, tap);
            None
        } else if self.taps[index] {
            self.set_oneshot_keycode(index, tap);
            self.taps[index] = false;
            None
        } else {
            self.set_keycode(index, layer, state, hold)
        }
    }

    /// Resolve switch `s` through the layers and apply its key
    fn update_keys(&mut self, s: Switch) -> (ev: Option<KeyboardEvent>)
        requires
            key_update_ok(old(self)@, s),
        ensures
            (final(self)@, ev) == spec_update_key(old(self)@, s),
    {
        let top = self.keymap.active_layer;
        let index = s.index;
        let mut check_layer = top + 1;
        while check_layer > 0
            invariant
                0 <= check_layer <= top + 1,
                top == self.keymap.active_layer,
                top < NUM_LAYERS,
                index == s.index,
                index < NUM_SWITCHES,
                self@ == old(self)@,
                resolve(self.keymap, index as int, top as int) == resolve(
                    self.keymap,
                    index as int,
                    check_layer - 1,
                ),
            decreases check_layer,
        {
            check_layer = check_layer - 1;
            let layer = check_layer + 1;
            assert(index * layer < MATRIX_LEN) by (nonlinear_arith)
                requires
                    index < NUM_SWITCHES,
                    layer <= NUM_LAYERS,
            ;
            match self.keymap.layers[check_layer][index] {
                Key::Keycode(keycode) => {
                    return self.set_keycode(index, layer, s.state, keycode);
                },
                Key::Layer(set_layer) => {
                    return Some(self.keymap.set_layer(s.state, set_layer));
                },
                Key::LayerTap(n, keycode) => {
                    return self.layer_tap(index, n, keycode, s.state);
                },
                Key::KeyTap(hold, tap) => {
                    return self.key_tap(index, layer, hold, tap, s.state);
                },
                Key::GrvEsc => {
                    if self.reports(LEFT_SHIFT) || self.reports(RIGHT_SHIFT) {
                        return self.set_keycode(index, layer, s.state, GRAVE);
                    } else {
                        return self.set_keycode(index, layer, s.state, ESCAPE);
                    }
                },
                Key::Trns => {},
                Key::Dead => {
                    return None;
                },
            }
        }
        None
    }
}

/// Releasing a key undoes pressing it: pressing sets the report position
/// when it was empty and says so, and the release that follows empties it
/// again, leaving the report as it was.
pub proof fn law_release_undoes_press(
    v: KeyboardView,
    index: int,
    layer: int,
    keycode: u8,
    down: SwitchState,
    up: SwitchState,
)
    requires
        0 <= index * layer < v.matrix.len(),
        v.matrix[index * layer] == NO_EVENT_INDICATED,
        down.is_down(),
        !up.is_down(),
    ensures
        spec_set_keycode(v, index, layer, down, keycode).1 == Some(
            KeyboardEvent::Keycode(index as u8, layer as u8, keycode),
        ),
        spec_set_keycode(spec_set_keycode(v, index, layer, down, keycode).0, index, layer, up, keycode).0
            == v,
{
    let pressed = spec_set_keycode(v, index, layer, down, keycode).0;
    assert(pressed.matrix.update(index * layer, NO_EVENT_INDICATED) =~= v.matrix);
    assert(pressed.matrix.update(index * layer, keycode) =~= pressed.matrix);
}

/// Every key of the base layer acts by itself: none is transparent and
/// none switches layers
pub open spec fn base_layer_only(km: Keymap) -> bool {
    &&& km.active_layer == 0
    &&& forall|i: int|
        0 <= i < NUM_SWITCHES ==> !(#[trigger] km.key(0, i) is Trns) && !(km.key(0, i) is Layer)
            && !(km.key(0, i) is LayerTap)
}

/// A keymap that only uses its base layer handles any sequence of switches
/// of the layout, and the keymap stays as it is.
pub proof fn law_base_layer_handles_every_switch(v: KeyboardView, switches: Seq<Switch>)
    requires
        base_layer_only(v.keymap),
        forall|i: int| 0 <= i < switches.len() ==> (#[trigger] switches[i]).index < NUM_SWITCHES,
    ensures
        spec_run(v, switches) is Some,
        spec_run(v, switches).unwrap().0.keymap == v.keymap,
    decreases switches.len(),
{
    if switches.len() > 0 {
        let rest = switches.drop_last();
        law_base_layer_handles_every_switch(v, rest);
        let w = spec_run(v, rest).unwrap().0;
        let s = switches.last();
        assert(s == switches[switches.len() - 1]);
        let k = v.keymap.key(0, s.index as int);
        assert(!(k is Trns) && !(k is Layer) && !(k is LayerTap));
        assert(resolve(w.keymap, s.index as int, -1) is None);
        assert(resolve(w.keymap, s.index as int, 0) == Some((0int, k)));
        assert(key_update_ok(w, s));
    }
}

/// Tapping a tap key reports its tap keycode for exactly one report: after
/// the key went down and came up again before it was held, the tap keycode
/// stands in the report, no tap is pending any more, and clearing the one
/// shot keycodes after the report takes it out again.
pub proof fn law_tap_reports_once(v: KeyboardView, s: Switch, down: SwitchState, up: SwitchState)
    requires
        key_update_ok(v, s),
        v.matrix.len() == MATRIX_LEN,
        v.taps.len() == NUM_SWITCHES,
        down == SwitchState::Pressed || down == SwitchState::RapidPressed,
        up == SwitchState::Unpressed || up == SwitchState::RapidUnpressed,
        resolve(v.keymap, s.index as int, v.keymap.active_layer as int) matches Some((_, k)) && (
        k is LayerTap || k is KeyTap),
    ensures
        ({
            let pressed = spec_update_key(v, Switch { state: down, ..s }).0;
            let released = spec_update_key(pressed, Switch { state: up, ..s }).0;
            let tap = match resolve(v.keymap, s.index as int, v.keymap.active_layer as int) {
                Some((_, Key::LayerTap(_, code))) => code,
                Some((_, Key::KeyTap(_, code))) => code,
                _ => NO_EVENT_INDICATED,
            };
            &&& pressed.keymap == v.keymap
            &&& pressed.matrix == v.matrix
            &&& released.matrix[oneshot_slot(s.index as int)] == tap
            &&& !released.taps[s.index as int]
            &&& spec_clear_oneshot(released).matrix[oneshot_slot(s.index as int)]
                == NO_EVENT_INDICATED
        }),
{
}

/// A layer key is only active while it is down: a switch that resolves to
/// `Key::Layer(n)` makes layer `n` active and says so while it is down, and
/// once it is up the base layer is active again and that is said; the
/// report and the pending taps stay as they are either way.
pub proof fn law_layer_key_active_while_down(v: KeyboardView, s: Switch, l: int, n: usize)
    requires
        resolve(v.keymap, s.index as int, v.keymap.active_layer as int) == Some((l, Key::Layer(n))),
    ensures
        ({
            let (w, ev) = spec_update_key(v, s);
            &&& w.matrix == v.matrix
            &&& w.taps == v.taps
            &&& w.keymap.layers == v.keymap.layers
            &&& s.state.is_down() ==> w.keymap.active_layer == n && ev == Some(
                KeyboardEvent::Layer(n as u8),
            )
            &&& !s.state.is_down() ==> w.keymap.active_layer == 0 && ev == Some(
                KeyboardEvent::Layer(0),
            )
        }),
{
}

/// Pressing and then releasing a layer key comes back to the base layer:
/// when the key is still found through layer `n` once `n` is active (its
/// position there is transparent down to it), the release after the press
/// leaves layer 0 active and reports it.
pub proof fn law_layer_key_press_then_release(
    v: KeyboardView,
    s: Switch,
    l: int,
    n: usize,
    down: SwitchState,
    up: SwitchState,
)
    requires
        resolve(v.keymap, s.index as int, v.keymap.active_layer as int) == Some((l, Key::Layer(n))),
        resolve(Keymap { active_layer: n, ..v.keymap }, s.index as int, n as int) == Some(
            (l, Key::Layer(n)),
        ),
        down.is_down(),
        !up.is_down(),
    ensures
        ({
            let pressed = spec_update_key(v, Switch { state: down, ..s }).0;
            let (released, ev) = spec_update_key(pressed, Switch { state: up, ..s });
            &&& pressed.keymap.active_layer == n
            &&& released.keymap.active_layer == 0
            &&& ev == Some(KeyboardEvent::Layer(0))
            &&& released.matrix == v.matrix
        }),
{
    let pressed = spec_update_key(v, Switch { state: down, ..s }).0;
    assert(pressed.keymap == Keymap { active_layer: n, ..v.keymap });
}

/// A key that reports a keycode reports it at the switch's key position on
/// report layer `l + 1`, where `l` is the layer it was found on: going down
/// fills that entry when it is empty, going up empties it, nothing else in
/// the report and no layer changes. A grave escape key reports grave while a
/// shift key is reported, and escape otherwise.
pub proof fn law_keycode_keys_report_at_their_position(v: KeyboardView, s: Switch, l: int, k: Key)
    requires
        v.matrix.len() == MATRIX_LEN,
        key_update_ok(v, s),
        resolve(v.keymap, s.index as int, v.keymap.active_layer as int) == Some((l, k)),
        k is Keycode || k is GrvEsc,
        0 <= l < NUM_LAYERS,
    ensures
        ({
            let at = s.index * (l + 1);
            let code = match k {
                Key::Keycode(c) => c,
                _ => if v.matrix.contains(LEFT_SHIFT) || v.matrix.contains(RIGHT_SHIFT) {
                    GRAVE
                } else {
                    ESCAPE
                },
            };
            let (w, ev) = spec_update_key(v, s);
            &&& w.keymap == v.keymap
            &&& w.taps == v.taps
            &&& forall|i: int| 0 <= i < MATRIX_LEN && i != at ==> #[trigger] w.matrix[i] == v.matrix[i]
            &&& s.state.is_down() && v.matrix[at] == NO_EVENT_INDICATED ==> w.matrix[at] == code
                && ev == Some(KeyboardEvent::Keycode(s.index as u8, (l + 1) as u8, code))
            &&& !s.state.is_down() ==> w.matrix[at] == NO_EVENT_INDICATED
            &&& s.state.is_down() && v.matrix[at] != NO_EVENT_INDICATED ==> w == v && ev is None
        }),
{
    assert(0 <= s.index * (l + 1) < MATRIX_LEN) by (nonlinear_arith)
        requires
            s.index < NUM_SWITCHES,
            0 <= l < NUM_LAYERS,
    ;
}

/// Tap keys act on their hold once the switch is held: a layer tap key makes
/// its layer active, a key tap key reports its hold keycode at the switch's
/// key position; neither is a pending tap any more.
pub proof fn law_tap_keys_hold(v: KeyboardView, s: Switch, l: int, k: Key)
    requires
        key_update_ok(v, s),
        v.taps.len() == NUM_SWITCHES,
        v.matrix.len() == MATRIX_LEN,
        0 <= l < NUM_LAYERS,
        resolve(v.keymap, s.index as int, v.keymap.active_layer as int) == Some((l, k)),
        s.state == SwitchState::Held,
        k is LayerTap || k is KeyTap,
    ensures
        !spec_update_key(v, s).0.taps[s.index as int],
        k matches Key::LayerTap(n, _) ==> spec_update_key(v, s).0.keymap.active_layer == n
            && spec_update_key(v, s).0.matrix == v.matrix,
        k matches Key::KeyTap(hold, _) ==> spec_update_key(v, s).0.keymap == v.keymap && (
        v.matrix[s.index * (l + 1)] == NO_EVENT_INDICATED ==> spec_update_key(v, s).0.matrix[s.index
            * (l + 1)] == hold),
{
    assert(0 <= s.index * (l + 1) < MATRIX_LEN) by (nonlinear_arith)
        requires
            s.index < NUM_SWITCHES,
            0 <= l < NUM_LAYERS,
    ;
}

} // verus!
