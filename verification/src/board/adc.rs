//! Turning ADC results into the 8 bit readings the switches take.

use vstd::prelude::*;

verus! {

/// The 8 bit reading of a 12 bit ADC result: its top eight bits
pub fn read_sample(result: u16) -> (value: u8)
    ensures
        value == (result / 16) % 256,
{
    let v = (result >> 4u16) as u8;
    assert(v == (result / 16) % 256) by (bit_vector)
        requires
            v == (result >> 4u16) as u8,
    ;
    v
}

} // verus!
