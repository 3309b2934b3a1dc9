//! Selecting an input of the CD74HC4051 8-channel analog multiplexer.

use vstd::prelude::*;

verus! {

/// The levels of the select pins S0, S1 and S2 that connect input `output`:
/// pin `b` is high when bit `b` of `output` is set. Inputs go from 0 to 7;
/// higher bits are ignored.
pub fn select_levels(output: u8) -> (levels: [bool; 3])
    ensures
        levels@[0] == (output % 2 == 1),
        levels@[1] == ((output / 2) % 2 == 1),
        levels@[2] == ((output / 4) % 2 == 1),
{
    let s0 = is_bit_set(output, 0);
    let s1 = is_bit_set(output, 1);
    let s2 = is_bit_set(output, 2);
    let levels = [s0, s1, s2];
    assert(levels@[0] == s0 && levels@[1] == s1 && levels@[2] == s2);
    levels
}

/// Whether bit `b` of `output` is set
fn is_bit_set(output: u8, b: u8) -> (set: bool)
    requires
        b < 3,
    ensures
        b == 0 ==> set == (output % 2 == 1),
        b == 1 ==> set == ((output / 2) % 2 == 1),
        b == 2 ==> set == ((output / 4) % 2 == 1),
{
    let set = output & (1u8 << b) != 0;
    assert(b == 0 ==> set == (output % 2 == 1)) by (bit_vector)
        requires
            set == (output & (1u8 << b) != 0),
    ;
    assert(b == 1 ==> set == ((output / 2) % 2 == 1)) by (bit_vector)
        requires
            set == (output & (1u8 << b) != 0),
    ;
    assert(b == 2 ==> set == ((output / 4) % 2 == 1)) by (bit_vector)
        requires
            set == (output & (1u8 << b) != 0),
    ;
    set
}

/// The input to select after input `position` when stepping through all
/// eight inputs in turn
pub fn next_position(position: u8) -> (next: u8)
    ensures
        next == if position >= 7 { 0 } else { position + 1 },
{
    if position >= 7 {
        0
    } else {
        position + 1
    }
}

/// The select pins encode the input in binary: reading them back as bits
/// gives `output` modulo 8, so each of the eight inputs gets its own levels.
pub proof fn law_select_levels_encode_input(output: u8, l0: bool, l1: bool, l2: bool)
    requires
        l0 == (output % 2 == 1),
        l1 == ((output / 2) % 2 == 1),
        l2 == ((output / 4) % 2 == 1),
    ensures
        (if l0 { 1int } else { 0 }) + (if l1 { 2int } else { 0 }) + (if l2 { 4int } else { 0 })
            == output % 8,
{
    assert(output % 8 == output % 2 + 2 * ((output / 2) % 2) + 4 * ((output / 4) % 2)) by (
    bit_vector);
}

} // verus!
