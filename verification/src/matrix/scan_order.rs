//! The runtime order in which switches are scanned.

use vstd::prelude::*;

use crate::layout::{TravelTable, NUM_CHANNELS, NUM_MUX, NUM_SWITCHES};
use crate::matrix::switch::{can_update_raw, spec_new, spec_update, spec_value, Switch};

verus! {

/// A Single scan action to be taken on multiple switches
///
/// The rp2040 ADC for example has an internal 4 pin mux that allows it
/// to read multiple values from the ADC in quick succession.
#[derive(Default, Debug, Copy, Clone)]
pub struct Scan {
    pub switches: [Switch; NUM_MUX],
}

impl Scan {
    pub fn new() -> (s: Self)
        ensures
            forall|m: int| 0 <= m < NUM_MUX ==> #[trigger] s.switches@[m] == spec_new(0, 0),
    {
        Scan { switches: [Switch::new(0, 0); NUM_MUX] }
    }

    /// Whether every switch can take the raw ADC reading of its multiplexer
    pub fn fits(&self, values: [u8; NUM_MUX], travel: &TravelTable) -> (b: bool)
        ensures
            b == forall|m: int|
                0 <= m < NUM_MUX ==> can_update_raw(#[trigger] self.switches@[m], *travel, values@[m]),
    {
        let mut m: usize = 0;
        while m < NUM_MUX
            invariant
                0 <= m <= NUM_MUX,
                forall|k: int|
                    0 <= k < m ==> can_update_raw(#[trigger] self.switches@[k], *travel, values@[k]),
            decreases NUM_MUX - m,
        {
            if !self.switches[m].fits_raw(values[m], travel) {
                return false;
            }
            m = m + 1;
        }
        true
    }

    /// Update every switch with the raw ADC reading of its multiplexer
    pub fn update(&mut self, values: [u8; NUM_MUX], travel: &TravelTable)
        requires
            forall|m: int|
                0 <= m < NUM_MUX ==> can_update_raw(
                    #[trigger] old(self).switches@[m],
                    *travel,
                    values@[m],
                ),
        ensures
            forall|m: int|
                0 <= m < NUM_MUX ==> #[trigger] final(self).switches@[m] == spec_update(
                    old(self).switches@[m],
                    spec_value(old(self).switches@[m], *travel, values@[m]) as u8,
                ),
    {
        let mut m: usize = 0;
        while m < NUM_MUX
            invariant
                0 <= m <= NUM_MUX,
                forall|k: int|
                    m <= k < NUM_MUX ==> #[trigger] self.switches@[k] == old(self).switches@[k],
                forall|k: int|
                    0 <= k < NUM_MUX ==> can_update_raw(
                        #[trigger] old(self).switches@[k],
                        *travel,
                        values@[k],
                    ),
                forall|k: int|
                    0 <= k < m ==> #[trigger] self.switches@[k] == spec_update(
                        old(self).switches@[k],
                        spec_value(old(self).switches@[k], *travel, values@[k]) as u8,
                    ),
            decreases NUM_MUX - m,
        {
            let mut switch = self.switches[m];
            switch.update_raw(values[m], travel);
            self.switches[m] = switch;
            m = m + 1;
        }
    }
}

/// The order we will execute all the scans in
///
/// Technically the order does not matter, but we want to keep it
/// consistent so we can map the index of the scan and switch to
/// an exact position in our layer.
#[derive(Default, Debug, Copy, Clone)]
pub struct ScanOrder {
    pub scans: [Scan; NUM_CHANNELS],
}

/// The switch is wired to multiplexer `m` on channel `c`
pub open spec fn wired_to(s: Switch, c: int, m: int) -> bool {
    s.channel == c && s.mux == m
}

/// Every switch is wired to a channel and multiplexer the scan order has
pub open spec fn wiring_in_range(switches: Seq<Switch>) -> bool {
    forall|i: int|
        0 <= i < switches.len() ==> (#[trigger] switches[i]).channel < NUM_CHANNELS
            && switches[i].mux < NUM_MUX
}

/// No two switches are wired to the same channel and multiplexer
pub open spec fn wiring_distinct(switches: Seq<Switch>) -> bool {
    forall|i: int, j: int|
        0 <= i < switches.len() && 0 <= j < switches.len() && i != j ==> !wired_to(
            #[trigger] switches[i],
            (#[trigger] switches[j]).channel as int,
            switches[j].mux as int,
        )
}

/// The last of the first `n` switches wired to multiplexer `m` on channel `c`
pub open spec fn last_wired(switches: Seq<Switch>, c: int, m: int, n: int) -> Option<int>
    decreases n,
{
    if n <= 0 {
        None
    } else if wired_to(switches[n - 1], c, m) {
        Some(n - 1)
    } else {
        last_wired(switches, c, m, n - 1)
    }
}

/// What the scan order holds at multiplexer `m` of channel `c` once the
/// first `n` switches were placed: the last of them wired there, tagged
/// with its index, or an unconfigured switch
pub open spec fn slot(switches: Seq<Switch>, c: int, m: int, n: int) -> Switch {
    match last_wired(switches, c, m, n) {
        Some(i) => Switch { index: i as usize, ..switches[i] },
        None => spec_new(0, 0),
    }
}

impl ScanOrder {
    /// The switch scanned at multiplexer `m` of channel `c`
    pub open spec fn at(self, c: int, m: int) -> Switch {
        self.scans@[c].switches@[m]
    }

    /// Order the user representation of the keyboard layout for runtime.
    pub fn new(switches: [Switch; NUM_SWITCHES]) -> (order: Self)
        requires
            wiring_in_range(switches@),
        ensures
            forall|c: int, m: int|
                0 <= c < NUM_CHANNELS && 0 <= m < NUM_MUX ==> #[trigger] order.at(c, m) == slot(
                    switches@,
                    c,
                    m,
                    NUM_SWITCHES as int,
                ),
            forall|c: int, m: int|
                0 <= c < NUM_CHANNELS && 0 <= m < NUM_MUX ==> #[trigger] order.at(c, m).index
                    < NUM_SWITCHES,
    {
        let mut scans = [Scan::new(); NUM_CHANNELS];
        let mut i: usize = 0;
        while i < NUM_SWITCHES
            invariant
                0 <= i <= NUM_SWITCHES,
                wiring_in_range(switches@),
                forall|c: int, m: int|
                    0 <= c < NUM_CHANNELS && 0 <= m < NUM_MUX ==> #[trigger] scans@[c].switches@[m]
                        == slot(switches@, c, m, i as int),
            decreases NUM_SWITCHES - i,
        {
            let mut switch = switches[i];
            switch.index = i;
            let c = switch.channel as usize;
            let m = switch.mux as usize;
            let mut scan = scans[c];
            scan.switches[m] = switch;
            scans[c] = scan;
            i = i + 1;
        }
        let order = ScanOrder { scans };
        assert forall|c: int, m: int|
            0 <= c < NUM_CHANNELS && 0 <= m < NUM_MUX implies #[trigger] order.at(c, m).index
            < NUM_SWITCHES by {
            lemma_last_wired_below(switches@, c, m, NUM_SWITCHES as int);
        }
        order
    }
}

/// Placing the switches loses none of them: when no two share a channel
/// and multiplexer, each one is scanned exactly where it is wired, tagged
/// with its index in the layout.
pub proof fn law_scan_order_keeps_every_switch(switches: Seq<Switch>, i: int)
    requires
        wiring_distinct(switches),
        0 <= i < switches.len(),
    ensures
        slot(switches, switches[i].channel as int, switches[i].mux as int, switches.len() as int)
            == (Switch { index: i as usize, ..switches[i] }),
{
    let c = switches[i].channel as int;
    let m = switches[i].mux as int;
    lemma_last_wired_is_only(switches, c, m, i, switches.len() as int);
}

/// With as many switches as the scan order has places and no two wired
/// alike, every place is taken: each multiplexer of each channel scans one
/// of the switches, tagged with its index in the layout.
pub proof fn law_distinct_wiring_fills_every_slot(switches: Seq<Switch>, c: int, m: int)
    requires
        switches.len() == NUM_CHANNELS * NUM_MUX,
        wiring_in_range(switches),
        wiring_distinct(switches),
        0 <= c < NUM_CHANNELS,
        0 <= m < NUM_MUX,
    ensures
        exists|i: int|
            0 <= i < switches.len() && wired_to(#[trigger] switches[i], c, m) && slot(
                switches,
                c,
                m,
                switches.len() as int,
            ) == (Switch { index: i as usize, ..switches[i] }),
{
    let n = switches.len() as int;
    let places = Seq::new(
        switches.len(),
        |i: int| switches[i].channel * NUM_MUX as int + switches[i].mux,
    );
    assert forall|i: int, j: int| 0 <= i < n && 0 <= j < n && i != j implies places[i]
        != places[j] by {
        assert(!wired_to(switches[i], switches[j].channel as int, switches[j].mux as int));
    }
    assert(places.no_duplicates());
    places.unique_seq_to_set();
    vstd::set_lib::lemma_int_range(0, n);
    assert(places.to_set().subset_of(vstd::set_lib::set_int_range(0, n))) by {
        assert forall|x: int| places.to_set().contains(x) implies vstd::set_lib::set_int_range(
            0,
            n,
        ).contains(x) by {
            let i = choose|i: int| 0 <= i < places.len() && places[i] == x;
            assert(switches[i].channel < NUM_CHANNELS && switches[i].mux < NUM_MUX);
        }
    }
    vstd::set_lib::lemma_subset_equality(places.to_set(), vstd::set_lib::set_int_range(0, n));
    let key = c * NUM_MUX as int + m;
    assert(vstd::set_lib::set_int_range(0, n).contains(key));
    assert(places.to_set().contains(key));
    let i = choose|i: int| 0 <= i < places.len() && places[i] == key;
    assert(switches[i].channel < NUM_CHANNELS && switches[i].mux < NUM_MUX);
    assert(wired_to(switches[i], c, m));
    law_scan_order_keeps_every_switch(switches, i);
}

proof fn lemma_last_wired_below(switches: Seq<Switch>, c: int, m: int, n: int)
    ensures
        last_wired(switches, c, m, n) matches Some(i) ==> 0 <= i < n,
    decreases n,
{
    if n > 0 {
        lemma_last_wired_below(switches, c, m, n - 1);
    }
}

proof fn lemma_last_wired_is_only(switches: Seq<Switch>, c: int, m: int, i: int, n: int)
    requires
        wiring_distinct(switches),
        0 <= i < n <= switches.len(),
        wired_to(switches[i], c, m),
    ensures
        last_wired(switches, c, m, n) == Some(i),
    decreases n,
{
    if n - 1 != i {
        assert(!wired_to(switches[n - 1], switches[i].channel as int, switches[i].mux as int));
        lemma_last_wired_is_only(switches, c, m, i, n - 1);
    }
}

} // verus!
