//! Scheduling one scan round over all channels, and averaging the ADC
//! samples the DMA collected for a channel.

use vstd::prelude::*;

use crate::layout::{TravelTable, NUM_CHANNELS, NUM_MUX, SAMPLES};
use crate::matrix::keys::{scanned_switches, spec_run, KeyboardEvent, KeyboardState};
use crate::matrix::scan_order::ScanOrder;
use crate::matrix::switch::{can_update_raw, spec_update, spec_value, Switch};

verus! {

/// Samples collected per channel: `SAMPLES` for every multiplexer, taken
/// round robin over the multiplexers
pub const SAMPLE_BUFFER: usize = NUM_MUX * SAMPLES;

/// Sum of the samples of multiplexer `m` among the first `n` samples
pub open spec fn sample_sum(buf: Seq<u8>, m: int, n: int) -> int
    decreases n,
{
    if n <= 0 {
        0
    } else {
        sample_sum(buf, m, n - 1) + if (n - 1) % NUM_MUX as int == m {
            buf[n - 1] as int
        } else {
            0
        }
    }
}

proof fn lemma_sample_sum_bound(buf: Seq<u8>, m: int, n: int)
    requires
        0 <= n <= buf.len(),
    ensures
        0 <= sample_sum(buf, m, n) <= 255 * n,
    decreases n,
{
    if n > 0 {
        lemma_sample_sum_bound(buf, m, n - 1);
    }
}

/// The average reading of multiplexer `m` over the samples of one channel
pub open spec fn spec_average(buf: Seq<u8>, m: int) -> int {
    sample_sum(buf, m, SAMPLE_BUFFER as int) / SAMPLES as int
}

/// The average reading of every multiplexer over the samples of one channel
pub fn average_samples(buf: &[u8; SAMPLE_BUFFER]) -> (avg: [u8; NUM_MUX])
    ensures
        forall|m: int|
            0 <= m < NUM_MUX ==> #[trigger] avg@[m] == spec_average(buf@, m),
{
    let mut acc: [u16; NUM_MUX] = [0;NUM_MUX];
    let mut i: usize = 0;
    while i < SAMPLE_BUFFER
        invariant
            0 <= i <= SAMPLE_BUFFER,
            forall|m: int| 0 <= m < NUM_MUX ==> #[trigger] acc@[m] == sample_sum(buf@, m, i as int),
        decreases SAMPLE_BUFFER - i,
    {
        proof {
            lemma_sample_sum_bound(buf@, (i % NUM_MUX) as int, i as int);
        }
        let m = i % NUM_MUX;
        acc[m] = acc[m] + buf[i] as u16;
        i = i + 1;
    }
    let mut avg: [u8; NUM_MUX] = [0;NUM_MUX];
    let mut m: usize = 0;
    while m < NUM_MUX
        invariant
            0 <= m <= NUM_MUX,
            forall|k: int|
                0 <= k < NUM_MUX ==> #[trigger] acc@[k] == sample_sum(buf@, k, SAMPLE_BUFFER as int),
            forall|k: int|
                0 <= k < m ==> #[trigger] avg@[k] == sample_sum(buf@, k, SAMPLE_BUFFER as int)
                    / SAMPLES as int,
        decreases NUM_MUX - m,
    {
        proof {
            lemma_sample_sum_bound(buf@, m as int, SAMPLE_BUFFER as int);
        }
        avg[m] = (acc[m] / SAMPLES as u16) as u8;
        m = m + 1;
    }
    avg
}

/// Where a scan round stands: the channel being read, and whether its DMA
/// transfer is running
#[derive(Debug, Copy, Clone)]
pub struct ScanCursor {
    pub channel: u8,
    pub busy: bool,
}

/// What to do after a DMA transfer completed
#[derive(Debug, Copy, Clone, PartialEq, Eq, Structural)]
pub enum ScanStep {
    /// Select this channel and start its transfer
    Transfer(u8),
    /// The round is complete: hand the scan order to the keyboard
    Finish,
}

impl ScanCursor {
    /// A transfer only runs on a channel that exists
    pub open spec fn wf(self) -> bool {
        self.busy ==> self.channel < NUM_CHANNELS
    }

    /// No round started yet
    pub fn new() -> (c: ScanCursor)
        ensures
            c == (ScanCursor { channel: 0, busy: false }),
            c.wf(),
    {
        ScanCursor { channel: 0, busy: false }
    }

    /// Start a round at channel 0, unless a transfer still runs; returns the
    /// channel whose transfer to start
    pub fn scan(&mut self) -> (start: Option<u8>)
        requires
            old(self).wf(),
        ensures
            final(self).wf(),
            old(self).busy ==> start is None && *final(self) == *old(self),
            !old(self).busy ==> start == Some(0u8) && *final(self) == (ScanCursor {
                channel: 0,
                busy: true,
            }),
    {
        if self.busy {
            None
        } else {
            self.channel = 0;
            self.busy = true;
            Some(0)
        }
    }

    /// A DMA transfer completed: returns the channel whose readings arrived,
    /// if a transfer was running, and what to do next
    pub fn dma_completion(&mut self) -> (r: (Option<u8>, ScanStep))
        requires
            old(self).wf(),
        ensures
            final(self).wf(),
            (*final(self), r) == spec_completion(*old(self)),
    {
        let done = if self.busy {
            let c = self.channel;
            self.busy = false;
            self.channel = self.channel + 1;
            Some(c)
        } else {
            None
        };
        if (self.channel as usize) < NUM_CHANNELS {
            self.busy = true;
            (done, ScanStep::Transfer(self.channel))
        } else {
            (done, ScanStep::Finish)
        }
    }
}

/// The cursor after a DMA transfer completed, the channel whose readings
/// arrived and what to do next: the next channel is read until all were
pub open spec fn spec_completion(c: ScanCursor) -> (ScanCursor, (Option<u8>, ScanStep)) {
    let done = if c.busy { Some(c.channel) } else { None };
    let next: int = if c.busy { c.channel + 1 } else { c.channel as int };
    if next < NUM_CHANNELS {
        (ScanCursor { channel: next as u8, busy: true }, (done, ScanStep::Transfer(next as u8)))
    } else {
        (ScanCursor { channel: next as u8, busy: false }, (done, ScanStep::Finish))
    }
}

/// The readings that arrived, if any, can be handed to the switches of
/// their channel
pub open spec fn readings_fit(
    order: ScanOrder,
    done: Option<u8>,
    samples: Option<[u8; SAMPLE_BUFFER]>,
    travel: TravelTable,
) -> bool {
    match (done, samples) {
        (Some(c), Some(buf)) => forall|m: int|
            0 <= m < NUM_MUX ==> can_update_raw(
                #[trigger] order.at(c as int, m),
                travel,
                spec_average(buf@, m) as u8,
            ),
        _ => true,
    }
}

/// The switch at multiplexer `m` of channel `c` once the readings that
/// arrived were handed to the switches of their channel
pub open spec fn switch_after(
    order: ScanOrder,
    done: Option<u8>,
    samples: Option<[u8; SAMPLE_BUFFER]>,
    travel: TravelTable,
    c: int,
    m: int,
) -> Switch {
    match (done, samples) {
        (Some(ch), Some(buf)) => if c == ch {
            let s = order.at(c, m);
            spec_update(s, spec_value(s, travel, spec_average(buf@, m) as u8) as u8)
        } else {
            order.at(c, m)
        },
        _ => order.at(c, m),
    }
}

/// The switches in scan order once the readings that arrived were handed to
/// the switches of their channel
pub open spec fn scanned_after(
    order: ScanOrder,
    done: Option<u8>,
    samples: Option<[u8; SAMPLE_BUFFER]>,
    travel: TravelTable,
) -> Seq<Switch> {
    Seq::new(
        (NUM_CHANNELS * NUM_MUX) as nat,
        |k: int| switch_after(order, done, samples, travel, k / NUM_MUX as int, k % NUM_MUX as int),
    )
}

/// One scan round: where it stands, and the switches in scan order
#[derive(Debug, Copy, Clone)]
pub struct ScanRound {
    pub cursor: ScanCursor,
    pub order: ScanOrder,
}

impl ScanRound {
    /// No round started yet over the switches of `order`
    pub fn new(order: ScanOrder) -> (r: ScanRound)
        ensures
            r == (ScanRound { cursor: ScanCursor { channel: 0, busy: false }, order }),
            r.cursor.wf(),
    {
        ScanRound { cursor: ScanCursor::new(), order }
    }

    /// A DMA transfer completed, with `samples` the buffer it filled if a
    /// transfer was running: the averaged readings go to the switches of the
    /// channel that was read, and once every channel was read the keyboard
    /// handles all switches in scan order. Returns what to do next and what
    /// changed in the keyboard; `None` when a reading does not fit its switch
    /// (its travel is below the switch offset, or the hold counter would
    /// overflow) or a switch leaves the keymap, and then the switches and the
    /// keyboard stay as they were.
    pub fn dma_completion(
        &mut self,
        samples: Option<[u8; SAMPLE_BUFFER]>,
        travel: &TravelTable,
        keys: &mut KeyboardState,
    ) -> (r: Option<(ScanStep, Vec<KeyboardEvent>)>)
        requires
            old(self).cursor.wf(),
        ensures
            ({
                let (cursor, (done, step)) = spec_completion(old(self).cursor);
                let fits = readings_fit(old(self).order, done, samples, *travel);
                &&& final(self).cursor == cursor
                &&& final(self).cursor.wf()
                &&& r is None ==> final(self).order == old(self).order && final(keys)@ == old(keys)@
                &&& r is Some ==> forall|c: int, m: int|
                    0 <= c < NUM_CHANNELS && 0 <= m < NUM_MUX ==> #[trigger] final(self).order.at(c, m)
                        == switch_after(old(self).order, done, samples, *travel, c, m)
                &&& r is Some <==> fits && (step is Finish ==> spec_run(
                    old(keys)@,
                    scanned_after(old(self).order, done, samples, *travel),
                ) is Some)
                &&& r matches Some((st, evs)) ==> st == step && if step is Finish {
                    spec_run(old(keys)@, scanned_after(old(self).order, done, samples, *travel)) == Some(
                        (final(keys)@, evs@),
                    )
                } else {
                    final(keys)@ == old(keys)@ && evs@.len() == 0
                }
            }),
    {
        let (done, step) = self.cursor.dma_completion();
        let mut order = self.order;
        match (done, samples) {
            (Some(ch), Some(buf)) => {
                let values = average_samples(&buf);
                let c = ch as usize;
                if !order.scans[c].fits(values, travel) {
                    proof {
                        let m = choose|m: int|
                            0 <= m < NUM_MUX && !can_update_raw(
                                #[trigger] order.scans@[c as int].switches@[m],
                                *travel,
                                values@[m],
                            );
                        assert(values@[m] == spec_average(buf@, m));
                        assert(order.at(c as int, m) == order.scans@[c as int].switches@[m]);
                    }
                    return None;
                }
                let mut scan = order.scans[c];
                scan.update(values, travel);
                order.scans[c] = scan;
            },
            _ => {},
        }
        assert(scanned_switches(order) =~= scanned_after(old(self).order, done, samples, *travel));
        match step {
            ScanStep::Transfer(_) => {
                self.order = order;
                Some((step, Vec::new()))
            },
            ScanStep::Finish => {
                let mut updated = *keys;
                match updated.try_update(&order) {
                    Some(events) => {
                        self.order = order;
                        *keys = updated;
                        Some((step, events))
                    },
                    None => None,
                }
            },
        }
    }
}

/// The cursor after `n` completions
pub open spec fn completions(c: ScanCursor, n: nat) -> ScanCursor
    decreases n,
{
    if n == 0 {
        c
    } else {
        spec_completion(completions(c, (n - 1) as nat)).0
    }
}

/// A round reads every channel once, in order: after the round started at
/// channel 0, the completion of the transfer of channel `k` delivers channel
/// `k` and starts the next channel, and the last one finishes the round.
pub proof fn law_round_visits_every_channel(k: nat)
    requires
        k < NUM_CHANNELS,
    ensures
        completions(ScanCursor { channel: 0, busy: true }, k) == (ScanCursor {
            channel: k as u8,
            busy: true,
        }),
        spec_completion(completions(ScanCursor { channel: 0, busy: true }, k)).1 == (
            Some(k as u8),
            if k + 1 < NUM_CHANNELS {
                ScanStep::Transfer((k + 1) as u8)
            } else {
                ScanStep::Finish
            },
        ),
    decreases k,
{
    if k > 0 {
        law_round_visits_every_channel((k - 1) as nat);
    }
}

} // verus!
