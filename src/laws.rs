use vstd::prelude::*;

use crate::configuration::{high_byte, low_byte};
use crate::types::RgbCInterruptPersistence;

verus! {

/// Persistence levels map one to one onto the codes 0 to 15, in their order
/// from the most to the least eager: the level at position `i` has code `i`,
/// so codes strictly increase along the order, and every level is listed.
pub proof fn lemma_persistence_codes_increase()
    ensures
        RgbCInterruptPersistence::levels().len() == 16,
        forall|i: int|
            0 <= i < 16 ==> (#[trigger] RgbCInterruptPersistence::levels()[i]).code() == i,
        forall|i: int, j: int|
            0 <= i < j < 16 ==> (#[trigger] RgbCInterruptPersistence::levels()[i]).code()
                < (#[trigger] RgbCInterruptPersistence::levels()[j]).code(),
        forall|p: RgbCInterruptPersistence| #[trigger]
            RgbCInterruptPersistence::levels().contains(p),
{
    let levels = RgbCInterruptPersistence::levels();
    assert forall|i: int| 0 <= i < 16 implies (#[trigger] levels[i]).code() == i by {
        if i == 0 {} else if i == 1 {} else if i == 2 {} else if i == 3 {}
        else if i == 4 {} else if i == 5 {} else if i == 6 {} else if i == 7 {}
        else if i == 8 {} else if i == 9 {} else if i == 10 {} else if i == 11 {}
        else if i == 12 {} else if i == 13 {} else if i == 14 {} else {}
    }
    assert forall|p: RgbCInterruptPersistence| #[trigger] levels.contains(p) by {
        assert(levels[p.code() as int] == p);
    }
}

/// Setting the same bits twice leaves the same value as setting them once:
/// two successful `enable` calls in a row leave the copy of the enable
/// register as one does.
pub proof fn lemma_set_bits_idempotent(value: u8, bits: u8)
    ensures
        (value | bits) | bits == value | bits,
{
    assert((value | bits) | bits == value | bits) by (bit_vector);
}

/// Clearing bits right after setting them leaves exactly those bits cleared
/// and every other bit as it was: `disable` after `enable` clears the power
/// bit alone.
pub proof fn lemma_clear_after_set(value: u8, bits: u8)
    ensures
        ((value | bits) & !bits) & bits == 0,
        ((value | bits) & !bits) & !bits == value & !bits,
{
    assert(((value | bits) & !bits) & bits == 0) by (bit_vector);
    assert(((value | bits) & !bits) & !bits == value & !bits) by (bit_vector);
}

/// The low and the high byte written for a threshold put it back together.
pub proof fn lemma_threshold_bytes(threshold: u16)
    ensures
        high_byte(threshold) as int * 256 + low_byte(threshold) as int == threshold as int,
{
    assert(((threshold >> 8) & 0xff) as u8 as u16 * 256 + (threshold & 0xff) as u8 as u16
        == threshold) by (bit_vector);
}

} // verus!
