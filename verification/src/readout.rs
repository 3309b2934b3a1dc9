//! Plain readout of the switches: every switch only remembers where it is
//! wired and its position correction, for boards with four multiplexers.

use vstd::prelude::*;

use crate::layout::TravelTable;

verus! {

/// Number of multiplexers connected to ADC
pub const NUM_MUX: usize = 4;

/// Total number of switches
pub const NUM_SWITCHES: usize = 8;

/// Number of scans needed to read all switches
pub const NUM_SCANS: usize = 8;

#[derive(Debug, Copy, Clone)]
pub struct Switch {
    /// Last read value
    value: u8,
    /// individual position correction
    comp: u8,
    /// ID of the mux this switch is attached to
    mux: u8,
    /// Channel of the mux this switch is attached to
    channel: u8,
}

/// A switch as values: last read value, correction, multiplexer and channel
pub struct SwitchView {
    pub value: u8,
    pub comp: u8,
    pub mux: u8,
    pub channel: u8,
}

impl View for Switch {
    type V = SwitchView;

    closed spec fn view(&self) -> SwitchView {
        SwitchView { value: self.value, comp: self.comp, mux: self.mux, channel: self.channel }
    }
}

/// A switch that was not read yet, attached to `mux` and `channel`
pub open spec fn unread(mux: u8, channel: u8) -> SwitchView {
    SwitchView { value: u8::MAX, comp: 26, mux, channel }
}

impl Default for Switch {
    fn default() -> (s: Self)
        ensures
            s@ == unread(0, 0),
    {
        Self { value: u8::MAX, comp: 26, mux: 0, channel: 0 }
    }
}

impl Switch {
    pub fn new(mux: u8, channel: u8) -> (s: Self)
        ensures
            s@ == unread(mux, channel),
    {
        Self { mux, channel, ..Default::default() }
    }

    /// Remember the corrected position of the raw ADC reading `value`
    pub fn value(&mut self, value: u8, travel: &TravelTable)
        requires
            travel@[value as int] >= old(self)@.comp,
        ensures
            final(self)@ == (SwitchView {
                value: (travel@[value as int] - old(self)@.comp) as u8,
                ..old(self)@
            }),
    {
        self.value = travel[value as usize] - self.comp
    }
}

/// A Single scan action to be taken on multiple switches
#[derive(Debug, Copy, Clone)]
pub struct Scan {
    pub switches: [Switch; NUM_MUX],
}

impl Default for Scan {
    fn default() -> (s: Self)
        ensures
            forall|m: int| 0 <= m < NUM_MUX ==> (#[trigger] s.switches@[m])@ == unread(0, 0),
    {
        let d = Switch::default();
        Scan { switches: [d, d, d, d] }
    }
}

/// The order we will execute all the scans in
///
/// Technically the order does not matter, but we want to keep it
/// consistent during one run at least.
#[derive(Debug, Copy, Clone)]
pub struct ScanOrder {
    pub scans: [Scan; NUM_SCANS],
}

impl Default for ScanOrder {
    fn default() -> (s: Self)
        ensures
            forall|c: int, m: int|
                0 <= c < NUM_SCANS && 0 <= m < NUM_MUX ==> #[trigger] s.at(c, m) == unread(0, 0),
    {
        let d = Scan::default();
        ScanOrder { scans: [d, d, d, d, d, d, d, d] }
    }
}

/// The last of the first `n` switches wired to multiplexer `m` on channel `c`
pub open spec fn last_wired(switches: Seq<Switch>, c: int, m: int, n: int) -> Option<int>
    decreases n,
{
    if n <= 0 {
        None
    } else if switches[n - 1]@.channel == c && switches[n - 1]@.mux == m {
        Some(n - 1)
    } else {
        last_wired(switches, c, m, n - 1)
    }
}

/// What is read at multiplexer `m` of channel `c` once the first `n`
/// switches were placed
pub open spec fn slot(switches: Seq<Switch>, c: int, m: int, n: int) -> SwitchView {
    match last_wired(switches, c, m, n) {
        Some(i) => switches[i]@,
        None => unread(0, 0),
    }
}

impl ScanOrder {
    /// The switch read at multiplexer `m` of channel `c`
    pub open spec fn at(self, c: int, m: int) -> SwitchView {
        self.scans@[c].switches@[m]@
    }

    /// Place every switch where it is wired
    pub fn new(switches: [Switch; NUM_SWITCHES]) -> (order: Self)
        requires
            forall|i: int|
                0 <= i < NUM_SWITCHES ==> (#[trigger] switches@[i])@.channel < NUM_SCANS
                    && switches@[i]@.mux < NUM_MUX,
        ensures
            forall|c: int, m: int|
                0 <= c < NUM_SCANS && 0 <= m < NUM_MUX ==> #[trigger] order.at(c, m) == slot(
                    switches@,
                    c,
                    m,
                    NUM_SWITCHES as int,
                ),
    {
        let blank = ScanOrder::default();
        let mut scans = blank.scans;
        assert forall|c: int, m: int| 0 <= c < NUM_SCANS && 0 <= m < NUM_MUX implies (
        #[trigger] scans@[c].switches@[m])@ == slot(switches@, c, m, 0) by {
            assert(blank.at(c, m) == unread(0, 0));
        }
        let mut i: usize = 0;
        while i < NUM_SWITCHES
            invariant
                0 <= i <= NUM_SWITCHES,
                forall|j: int|
                    0 <= j < NUM_SWITCHES ==> (#[trigger] switches@[j])@.channel < NUM_SCANS
                        && switches@[j]@.mux < NUM_MUX,
                forall|c: int, m: int|
                    0 <= c < NUM_SCANS && 0 <= m < NUM_MUX ==> (#[trigger] scans@[c].switches@[m])@
                        == slot(switches@, c, m, i as int),
            decreases NUM_SWITCHES - i,
        {
            let s = switches[i];
            let c = s.channel as usize;
            let m = s.mux as usize;
            let mut scan = scans[c];
            scan.switches[m] = s;
            scans[c] = scan;
            i = i + 1;
        }
        ScanOrder { scans }
    }
}

/// Placing the switches loses none of them: when no two share a channel
/// and multiplexer, each one is scanned exactly where it is wired.
pub proof fn law_scan_order_keeps_every_switch(switches: Seq<Switch>, i: int)
    requires
        forall|a: int, b: int|
            0 <= a < switches.len() && 0 <= b < switches.len() && a != b ==> !((#[trigger] switches[a])@.channel
                == (#[trigger] switches[b])@.channel && switches[a]@.mux == switches[b]@.mux),
        0 <= i < switches.len(),
    ensures
        slot(switches, switches[i]@.channel as int, switches[i]@.mux as int, switches.len() as int) == switches[i]@,
{
    lemma_last_wired_is_only(switches, switches[i]@.channel as int, switches[i]@.mux as int, i, switches.len() as int);
}

proof fn lemma_last_wired_is_only(switches: Seq<Switch>, c: int, m: int, i: int, n: int)
    requires
        forall|a: int, b: int|
            0 <= a < switches.len() && 0 <= b < switches.len() && a != b ==> !((#[trigger] switches[a])@.channel
                == (#[trigger] switches[b])@.channel && switches[a]@.mux == switches[b]@.mux),
        0 <= i < n <= switches.len(),
        switches[i]@.channel == c && switches[i]@.mux == m,
    ensures
        last_wired(switches, c, m, n) == Some(i),
    decreases n,
{
    if n - 1 != i {
        assert(!(switches[n - 1]@.channel == switches[i]@.channel && switches[n - 1]@.mux == switches[i]@.mux));
        lemma_last_wired_is_only(switches, c, m, i, n - 1);
    }
}

} // verus!
