//! The keymap and the NKRO keyboard report it writes.

use vstd::prelude::*;

use crate::layout::NUM_SWITCHES;
use crate::matrix::keys::{ESCAPE, GRAVE, LEFT_SHIFT, NO_EVENT_INDICATED, RIGHT_SHIFT};

verus! {

/// Entries of the report: one per keycode, then one per one shot keycode
pub const NUM_KEYCODES: usize = 462;

/// Where the one shot entries start in the report
pub const ONESHOT_OFFSET: usize = 231;

/// Number of layers a keymap has
pub const NUM_LAYERS: usize = 32;

/// A single key position in a layer
#[derive(Debug, Copy, Clone)]
pub enum Key {
    Keycode(u8),
    Layer(usize),
    LayerTap(usize, u8),
    GrvEsc,
    Trns,
    Dead,
}

impl Key {
    fn default() -> (k: Key)
        ensures
            k == Key::Dead,
    {
        Key::Dead
    }
}

pub type Layer = [Key; NUM_SWITCHES];

/// Mapping of switch locations to keys, and the report of the keyboard.
///
/// By default all report entries are `NO_EVENT_INDICATED`, and they are
/// switched as needed by [`Keymap::set_key()`].
#[derive(Debug, Copy, Clone)]
pub struct Keymap {
    pub layers: [Layer; NUM_LAYERS],
    pub active_layer: usize,
    pub keyboard: [u8; NUM_KEYCODES],
}

/// The keymap and its report as values
pub struct KeymapView {
    pub layers: [Layer; NUM_LAYERS],
    pub active_layer: usize,
    pub keyboard: Seq<u8>,
}

impl View for Keymap {
    type V = KeymapView;

    open spec fn view(&self) -> KeymapView {
        KeymapView {
            layers: self.layers,
            active_layer: self.active_layer,
            keyboard: self.keyboard@,
        }
    }
}

impl KeymapView {
    /// The key at position `index` of layer `layer`
    pub open spec fn key(self, layer: int, index: int) -> Key {
        self.layers@[layer]@[index]
    }

    /// The report after the keycode went down (`true`) or up
    pub open spec fn with_keycode(self, state: bool, keycode: u8) -> KeymapView {
        KeymapView {
            keyboard: self.keyboard.update(
                keycode as int,
                if state { keycode } else { NO_EVENT_INDICATED },
            ),
            ..self
        }
    }

    /// The keymap with `layer` active (`true`) or the base layer active
    pub open spec fn with_layer(self, state: bool, layer: usize) -> KeymapView {
        KeymapView { active_layer: if state { layer } else { 0 }, ..self }
    }

    /// The report with `keycode` sent once more
    pub open spec fn with_oneshot(self, keycode: u8) -> KeymapView {
        KeymapView { keyboard: self.keyboard.update(keycode + ONESHOT_OFFSET, keycode), ..self }
    }

    /// A shift key is down
    pub open spec fn shifted(self) -> bool {
        self.keyboard[LEFT_SHIFT as int] == LEFT_SHIFT || self.keyboard[RIGHT_SHIFT as int]
            == RIGHT_SHIFT
    }

    /// The layer at or below `layer` that decides what position `key` does,
    /// skipping transparent keys, with the key found there
    pub open spec fn resolve(self, key: int, layer: int) -> Option<(int, Key)>
        decreases layer + 1,
    {
        if layer < 0 {
            None
        } else {
            match self.key(layer, key) {
                Key::Trns => self.resolve(key, layer - 1),
                k => Some((layer, k)),
            }
        }
    }

    /// Updating position `key` stays inside the keymap and the report
    pub open spec fn set_key_ok(self, key: int, state: bool, held: bool) -> bool {
        &&& 0 <= key < NUM_SWITCHES
        &&& self.active_layer < NUM_LAYERS
        &&& match self.resolve(key, self.active_layer as int) {
            Some((_, Key::LayerTap(_, code))) => !state && !held ==> code + ONESHOT_OFFSET
                < NUM_KEYCODES,
            _ => true,
        }
    }

    /// The keymap after position `key` went down (`true`) or up; `held` tells
    /// whether it was held before going up
    pub open spec fn with_key(self, key: int, state: bool, held: bool) -> KeymapView {
        match self.resolve(key, self.active_layer as int) {
            Some((_, Key::Keycode(code))) => self.with_keycode(state, code),
            Some((_, Key::Layer(layer))) => self.with_layer(state, layer),
            Some((_, Key::LayerTap(_, code))) => if !state && !held {
                self.with_oneshot(code)
            } else {
                self
            },
            Some((_, Key::GrvEsc)) => self.with_keycode(
                state,
                if self.shifted() { GRAVE } else { ESCAPE },
            ),
            _ => self,
        }
    }

    /// The layer a layer tap key at position `key` switches to, taking the
    /// first one from layer `low` upwards to layer `high`
    pub open spec fn tap_layer(self, key: int, low: int, high: int) -> Option<usize>
        decreases high - low + 1,
    {
        if low > high {
            None
        } else {
            match self.key(low, key) {
                Key::LayerTap(layer, _) => Some(layer),
                _ => self.tap_layer(key, low + 1, high),
            }
        }
    }

    /// The keymap after the hold of position `key` started (`true`) or ended
    pub open spec fn with_hold(self, key: int, state: bool) -> KeymapView {
        match self.tap_layer(key, 0, self.active_layer as int) {
            Some(layer) => self.with_layer(state, layer),
            None => self,
        }
    }
}

impl Keymap {
    /// A keymap of dead keys with an empty report and layer 0 active
    pub fn default() -> (k: Keymap)
        ensures
            k@.active_layer == 0,
            k@.keyboard == Seq::new(NUM_KEYCODES as nat, |i: int| NO_EVENT_INDICATED),
            forall|l: int, i: int|
                0 <= l < NUM_LAYERS && 0 <= i < NUM_SWITCHES ==> #[trigger] k@.key(l, i) == Key::Dead,
    {
        let k = Keymap {
            layers: [[Key::default();NUM_SWITCHES];NUM_LAYERS],
            active_layer: 0,
            keyboard: [NO_EVENT_INDICATED;NUM_KEYCODES],
        };
        assert(k@.keyboard =~= Seq::new(NUM_KEYCODES as nat, |i: int| NO_EVENT_INDICATED));
        k
    }

    /// Report `keycode` as down (`true`) or up
    pub fn set_keycode(&mut self, state: bool, keycode: u8)
        ensures
            final(self)@ == old(self)@.with_keycode(state, keycode),
    {
        if state {
            self.keyboard[keycode as usize] = keycode;
        } else {
            self.keyboard[keycode as usize] = NO_EVENT_INDICATED;
        }
    }

    /// Send `keycode` in the next report only
    pub fn set_oneshot_keycode(&mut self, keycode: u8)
        requires
            keycode + ONESHOT_OFFSET < NUM_KEYCODES,
        ensures
            final(self)@ == old(self)@.with_oneshot(keycode),
    {
        self.keyboard[keycode as usize + ONESHOT_OFFSET] = keycode;
    }

    /// Activate `layer` (`true`) or fall back to the base layer
    pub fn set_layer(&mut self, state: bool, layer: usize)
        ensures
            final(self)@ == old(self)@.with_layer(state, layer),
    {
        if state {
            self.active_layer = layer;
        } else {
            self.active_layer = 0;
        }
    }

    /// Update the key with the position `key` with a new `state`
    pub fn set_key(&mut self, key: usize, state: bool, held: bool)
        requires
            old(self)@.set_key_ok(key as int, state, held),
        ensures
            final(self)@ == old(self)@.with_key(key as int, state, held),
    {
        let top = self.active_layer;
        let mut check_layer = top + 1;
        while check_layer > 0
            invariant
                0 <= check_layer <= top + 1,
                top == self.active_layer,
                self@ == old(self)@,
                old(self)@.set_key_ok(key as int, state, held),
                self@.resolve(key as int, top as int) == self@.resolve(
                    key as int,
                    check_layer - 1,
                ),
            decreases check_layer,
        {
            check_layer = check_layer - 1;
            match self.layers[check_layer][key] {
                Key::Keycode(keycode) => {
                    self.set_keycode(state, keycode);
                    return;
                },
                Key::Layer(layer) => {
                    self.set_layer(state, layer);
                    return;
                },
                Key::LayerTap(_, keycode) => {
                    if !state && !held {
                        self.set_oneshot_keycode(keycode);
                    }
                    return;
                },
                Key::GrvEsc => {
                    if self.keyboard[LEFT_SHIFT as usize] == LEFT_SHIFT
                        || self.keyboard[RIGHT_SHIFT as usize] == RIGHT_SHIFT {
                        self.set_keycode(state, GRAVE);
                    } else {
                        self.set_keycode(state, ESCAPE);
                    }
                    return;
                },
                Key::Trns => {},
                Key::Dead => {
                    return;
                },
            }
        }
    }

    /// Start (`true`) or end the hold of the key at position `key`: layer tap
    /// keys switch their layer while held
    pub fn set_hold(&mut self, key: usize, state: bool)
        requires
            key < NUM_SWITCHES,
            old(self).active_layer < NUM_LAYERS,
        ensures
            final(self)@ == old(self)@.with_hold(key as int, state),
    {
        let top = self.active_layer;
        let mut check_layer = top + 1;
        while check_layer > 0
            invariant
                0 <= check_layer <= top + 1,
                top == old(self).active_layer,
                top < NUM_LAYERS,
                key < NUM_SWITCHES,
                self.layers == old(self).layers,
                self.keyboard == old(self).keyboard,
                self.active_layer == match old(self)@.tap_layer(
                    key as int,
                    check_layer as int,
                    top as int,
                ) {
                    Some(layer) => if state { layer } else { 0 },
                    None => top,
                },
            decreases check_layer,
        {
            check_layer = check_layer - 1;
            match self.layers[check_layer][key] {
                Key::LayerTap(layer, _) => self.set_layer(state, layer),
                _ => {},
            }
        }
    }

    /// Get the state of the whole keyboard to pass as report over USB
    pub fn keyboard(&self) -> (report: [u8; NUM_KEYCODES])
        ensures
            report@ == self@.keyboard,
    {
        self.keyboard
    }

    /// Forget the one shot keycodes once they were sent
    pub fn clear_oneshot(&mut self)
        ensures
            final(self)@.layers == old(self)@.layers,
            final(self)@.active_layer == old(self)@.active_layer,
            final(self)@.keyboard.len() == NUM_KEYCODES,
            forall|i: int|
                0 <= i < NUM_KEYCODES ==> #[trigger] final(self)@.keyboard[i] == if i
                    >= ONESHOT_OFFSET {
                    NO_EVENT_INDICATED
                } else {
                    old(self)@.keyboard[i]
                },
    {
        let mut i: usize = ONESHOT_OFFSET;
        while i < NUM_KEYCODES
            invariant
                ONESHOT_OFFSET <= i <= NUM_KEYCODES,
                self.layers == old(self).layers,
                self.active_layer == old(self).active_layer,
                forall|j: int|
                    0 <= j < NUM_KEYCODES ==> #[trigger] self.keyboard@[j] == if ONESHOT_OFFSET
                        <= j < i {
                        NO_EVENT_INDICATED
                    } else {
                        old(self).keyboard@[j]
                    },
            decreases NUM_KEYCODES - i,
        {
            self.keyboard[i] = NO_EVENT_INDICATED;
            i = i + 1;
        }
    }
}

/// Releasing a key position undoes pressing it: when the position holds a
/// keycode (on the active layer or, through transparent keys, below it) that
/// was not reported, pressing reports it and releasing takes it back,
/// leaving keymap and report as they were.
pub proof fn law_release_undoes_press(km: KeymapView, key: int, code: u8)
    requires
        km.keyboard.len() == NUM_KEYCODES,
        km.resolve(key, km.active_layer as int) matches Some((_, Key::Keycode(c))) && c == code,
        km.keyboard[code as int] == NO_EVENT_INDICATED,
    ensures
        km.with_key(key, true, false).keyboard[code as int] == code,
        km.with_key(key, true, false).with_key(key, false, false) == km,
{
    let pressed = km.with_key(key, true, false);
    lemma_resolve_reads_layers(km, pressed, key, km.active_layer as int);
    assert(pressed.keyboard.update(code as int, NO_EVENT_INDICATED) =~= km.keyboard);
}

proof fn lemma_resolve_reads_layers(a: KeymapView, b: KeymapView, key: int, layer: int)
    requires
        a.layers == b.layers,
    ensures
        a.resolve(key, layer) == b.resolve(key, layer),
    decreases layer + 1,
{
    if layer >= 0 {
        lemma_resolve_reads_layers(a, b, key, layer - 1);
    }
}

/// A layer key is only active while it is down: at a position that resolves
/// to `Key::Layer(n)`, going down makes layer `n` active and going up makes
/// the base layer active again, whether or not it was held; the report and
/// the layers stay as they are.
pub proof fn law_layer_key_active_while_down(km: KeymapView, key: int, l: int, n: usize, held: bool)
    requires
        km.resolve(key, km.active_layer as int) == Some((l, Key::Layer(n))),
    ensures
        km.with_key(key, true, held).active_layer == n,
        km.with_key(key, false, held).active_layer == 0,
        km.with_key(key, true, held).keyboard == km.keyboard,
        km.with_key(key, false, held).keyboard == km.keyboard,
        km.with_key(key, false, held).layers == km.layers,
{
}

/// Pressing and then releasing a layer key comes back to the base layer,
/// when the key is still found through layer `n` once `n` is active.
pub proof fn law_layer_key_press_then_release(km: KeymapView, key: int, l: int, n: usize)
    requires
        km.resolve(key, km.active_layer as int) == Some((l, Key::Layer(n))),
        km.with_layer(true, n).resolve(key, n as int) == Some((l, Key::Layer(n))),
    ensures
        km.with_key(key, true, false).active_layer == n,
        km.with_key(key, true, false).with_key(key, false, false).active_layer == 0,
        km.with_key(key, true, false).with_key(key, false, false).keyboard == km.keyboard,
{
    assert(km.with_key(key, true, false) == km.with_layer(true, n));
}

/// A keycode key reports its keycode in the keycode's own entry while it is
/// down and empties that entry when it goes up; no other entry and no layer
/// changes.
pub proof fn law_keycode_key_reports_while_down(
    km: KeymapView,
    key: int,
    l: int,
    code: u8,
    state: bool,
    held: bool,
)
    requires
        km.keyboard.len() == NUM_KEYCODES,
        km.resolve(key, km.active_layer as int) == Some((l, Key::Keycode(code))),
    ensures
        km.with_key(key, state, held).keyboard[code as int] == if state {
            code
        } else {
            NO_EVENT_INDICATED
        },
        forall|i: int|
            0 <= i < NUM_KEYCODES && i != code ==> #[trigger] km.with_key(key, state, held).keyboard[i]
                == km.keyboard[i],
        km.with_key(key, state, held).active_layer == km.active_layer,
{
}

} // verus!
