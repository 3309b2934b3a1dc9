//! The runtime order in which switches are scanned.

use vstd::prelude::*;

use crate::layout::{TravelTable, NUM_CHANNELS, NUM_MUX, NUM_SWITCHES};
use crate::nkro::keys::{Keymap, KeymapView};
use crate::nkro::switch::{spec_new, spec_update, update_ok, Switch};

verus! {

/// A Single scan action to be taken on multiple switches
#[derive(Debug, Copy, Clone)]
pub struct Scan {
    pub switches: [Switch; NUM_MUX],
}

impl Default for Scan {
    fn default() -> (s: Self)
        ensures
            forall|m: int| 0 <= m < NUM_MUX ==> #[trigger] s.switches@[m] == spec_new(0, 0),
    {
        Scan { switches: [Switch::default()] }
    }
}

/// The first `n` switches after each was updated with its reading, in
/// order, together with the keymap they acted on; `None` when one of them
/// cannot take its reading
pub open spec fn spec_scan_update(
    switches: Seq<Switch>,
    values: Seq<u8>,
    travel: Seq<u8>,
    km: KeymapView,
    n: int,
) -> Option<(Seq<Switch>, KeymapView)>
    decreases n,
{
    if n <= 0 {
        Some((switches, km))
    } else {
        match spec_scan_update(switches, values, travel, km, n - 1) {
            None => None,
            Some((sw, k)) => if update_ok(sw[n - 1], values[n - 1], travel, k) {
                let (s2, k2) = spec_update(sw[n - 1], values[n - 1], travel, k);
                Some((sw.update(n - 1, s2), k2))
            } else {
                None
            },
        }
    }
}

impl Scan {
    /// Update every switch with the raw ADC reading of its multiplexer, in
    /// multiplexer order
    pub fn update(&mut self, values: [u8; NUM_MUX], travel: &TravelTable, keymap: &mut Keymap)
        requires
            spec_scan_update(
                old(self).switches@,
                values@,
                travel@,
                old(keymap)@,
                NUM_MUX as int,
            ) is Some,
        ensures
            spec_scan_update(old(self).switches@, values@, travel@, old(keymap)@, NUM_MUX as int)
                == Some((final(self).switches@, final(keymap)@)),
    {
        let mut m: usize = 0;
        while m < NUM_MUX
            invariant
                0 <= m <= NUM_MUX,
                spec_scan_update(
                    old(self).switches@,
                    values@,
                    travel@,
                    old(keymap)@,
                    NUM_MUX as int,
                ) is Some,
                spec_scan_update(old(self).switches@, values@, travel@, old(keymap)@, m as int)
                    == Some((self.switches@, keymap@)),
            decreases NUM_MUX - m,
        {
            proof {
                lemma_scan_update_prefix(
                    old(self).switches@,
                    values@,
                    travel@,
                    old(keymap)@,
                    NUM_MUX as int,
                    m + 1,
                );
            }
            let mut switch = self.switches[m];
            switch.update(values[m], travel, keymap);
            self.switches[m] = switch;
            assert(self.switches@ =~= spec_scan_update(
                old(self).switches@,
                values@,
                travel@,
                old(keymap)@,
                m + 1,
            ).unwrap().0);
            m = m + 1;
        }
    }
}

proof fn lemma_scan_update_prefix(
    switches: Seq<Switch>,
    values: Seq<u8>,
    travel: Seq<u8>,
    km: KeymapView,
    n: int,
    k: int,
)
    requires
        spec_scan_update(switches, values, travel, km, n) is Some,
        0 <= k <= n,
    ensures
        spec_scan_update(switches, values, travel, km, k) is Some,
    decreases n,
{
    if k < n {
        lemma_scan_update_prefix(switches, values, travel, km, n - 1, k);
    }
}

/// The order we will execute all the scans in
///
/// Technically the order does not matter, but we want to keep it
/// consistent during one run at least.
#[derive(Debug, Copy, Clone)]
pub struct ScanOrder {
    pub scans: [Scan; NUM_CHANNELS],
}

impl Default for ScanOrder {
    fn default() -> (s: Self)
        ensures
            forall|c: int, m: int|
                0 <= c < NUM_CHANNELS && 0 <= m < NUM_MUX ==> #[trigger] s.at(c, m) == spec_new(0, 0),
    {
        ScanOrder { scans: [Scan::default();NUM_CHANNELS] }
    }
}

/// The last of the first `n` switches wired to multiplexer `m` on channel `c`
pub open spec fn last_wired(switches: Seq<Switch>, c: int, m: int, n: int) -> Option<int>
    decreases n,
{
    if n <= 0 {
        None
    } else if switches[n - 1].channel == c && switches[n - 1].mux == m {
        Some(n - 1)
    } else {
        last_wired(switches, c, m, n - 1)
    }
}

/// What the scan order holds at multiplexer `m` of channel `c` once the
/// first `n` switches were placed
pub open spec fn slot(switches: Seq<Switch>, c: int, m: int, n: int) -> Switch {
    match last_wired(switches, c, m, n) {
        Some(i) => Switch { index: i as usize, ..switches[i] },
        None => spec_new(0, 0),
    }
}

impl ScanOrder {
    /// The switch scanned at multiplexer `m` of channel `c`
    pub open spec fn at(self, c: int, m: int) -> Switch {
        self.scans@[c].switches@[m]
    }

    /// Place every switch where it is wired, tagged with its index
    pub fn new(switches: [Switch; NUM_SWITCHES]) -> (order: Self)
        requires
            forall|i: int|
                0 <= i < NUM_SWITCHES ==> (#[trigger] switches@[i]).channel < NUM_CHANNELS
                    && switches@[i].mux < NUM_MUX,
        ensures
            forall|c: int, m: int|
                0 <= c < NUM_CHANNELS && 0 <= m < NUM_MUX ==> #[trigger] order.at(c, m) == slot(
                    switches@,
                    c,
                    m,
                    NUM_SWITCHES as int,
                ),
    {
        let mut scans = [Scan::default();NUM_CHANNELS];
        let mut i: usize = 0;
        while i < NUM_SWITCHES
            invariant
                0 <= i <= NUM_SWITCHES,
                forall|j: int|
                    0 <= j < NUM_SWITCHES ==> (#[trigger] switches@[j]).channel < NUM_CHANNELS
                        && switches@[j].mux < NUM_MUX,
                forall|c: int, m: int|
                    0 <= c < NUM_CHANNELS && 0 <= m < NUM_MUX ==> #[trigger] scans@[c].switches@[m]
                        == slot(switches@, c, m, i as int),
            decreases NUM_SWITCHES - i,
        {
            let mut switch = switches[i];
            switch.index = i;
            let c = switch.channel as usize;
            let m = switch.mux as usize;
            let mut scan = scans[c];
            scan.switches[m] = switch;
            scans[c] = scan;
            i = i + 1;
        }
        ScanOrder { scans }
    }
}

/// Placing the switches loses none of them: when no two share a channel
/// and multiplexer, each one is scanned exactly where it is wired.
pub proof fn law_scan_order_keeps_every_switch(switches: Seq<Switch>, i: int)
    requires
        forall|a: int, b: int|
            0 <= a < switches.len() && 0 <= b < switches.len() && a != b ==> !((#[trigger] switches[a]).channel
                == (#[trigger] switches[b]).channel && switches[a].mux == switches[b].mux),
        0 <= i < switches.len(),
    ensures
        slot(switches, switches[i].channel as int, switches[i].mux as int, switches.len() as int) == (Switch { index: i as usize, ..switches[i] }),
{
    lemma_last_wired_is_only(switches, switches[i].channel as int, switches[i].mux as int, i, switches.len() as int);
}

proof fn lemma_last_wired_is_only(switches: Seq<Switch>, c: int, m: int, i: int, n: int)
    requires
        forall|a: int, b: int|
            0 <= a < switches.len() && 0 <= b < switches.len() && a != b ==> !((#[trigger] switches[a]).channel
                == (#[trigger] switches[b]).channel && switches[a].mux == switches[b].mux),
        0 <= i < n <= switches.len(),
        switches[i].channel == c && switches[i].mux == m,
    ensures
        last_wired(switches, c, m, n) == Some(i),
    decreases n,
{
    if n - 1 != i {
        assert(!(switches[n - 1].channel == switches[i].channel && switches[n - 1].mux == switches[i].mux));
        lemma_last_wired_is_only(switches, c, m, i, n - 1);
    }
}

} // verus!
