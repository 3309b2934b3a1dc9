//! Reading the 64 bit microsecond counter of the timer as two 32 bit halves.

use vstd::prelude::*;

verus! {

/// The counter from a reading of the high half, the low half, and the high
/// half again; `None` when the high half changed in between, so the low half
/// may belong to either and the halves must be read again.
pub fn get_counter(hi0: u32, low: u32, hi1: u32) -> (counter: Option<u64>)
    ensures
        counter == if hi0 == hi1 {
            Some((hi0 * 0x1_0000_0000 + low) as u64)
        } else {
            None
        },
{
    if hi0 == hi1 {
        let c = ((hi0 as u64) << 32u64) | (low as u64);
        assert(c == hi0 * 0x1_0000_0000 + low) by (bit_vector)
            requires
                c == ((hi0 as u64) << 32u64) | (low as u64),
        ;
        Some(c)
    } else {
        None
    }
}

} // verus!
