//! Single bits and bit ranges of a 32-bit word.

use bit::BitIndex;
use vstd::prelude::*;

verus! {

/// Whether bit `pos` of `value` is set, bit 0 being the least significant.
pub open spec fn bit_is_set(value: u32, pos: u32) -> bool {
    value & (1u32 << pos) != 0
}

/// `value` with bit `pos` made equal to `bit` and every other bit kept.
pub open spec fn with_bit(value: u32, pos: u32, bit: bool) -> u32 {
    if bit {
        value | (1u32 << pos)
    } else {
        value & !(1u32 << pos)
    }
}

/// The bits `start..end` of `value`, moved down to bit 0.
pub open spec fn bit_range(value: u32, start: u32, end: u32) -> u32 {
    (value << ((32 - end) as u32)) >> ((32 - end + start) as u32)
}

/// `value` with the bits `start..end` replaced by `field` and every other
/// bit kept.
pub open spec fn with_bit_range(value: u32, start: u32, end: u32, field: u32) -> u32 {
    (value & !(bit_range(u32::MAX, start, end) << start)) | (field << start)
}

/// `BitIndex::bit` of the `bit` crate on `u32`: the bit at `pos`. The
/// outside method panics for `pos >= 32`.
#[verifier::external_body]
pub(crate) fn test_bit(value: u32, pos: usize) -> (r: bool)
    requires
        pos < 32,
    ensures
        r == bit_is_set(value, pos as u32),
{
    value.bit(pos)
}

/// `BitIndex::set_bit` of the `bit` crate on `u32`: bit `pos` becomes `bit`,
/// the others stay. The outside method panics for `pos >= 32`.
#[verifier::external_body]
pub(crate) fn assign_bit(value: &mut u32, pos: usize, bit: bool)
    requires
        pos < 32,
    ensures
        *final(value) == with_bit(*old(value), pos as u32, bit),
{
    value.set_bit(pos, bit);
}

/// `BitIndex::bit_range` of the `bit` crate on `u32`: the word is shifted
/// left until bit `end - 1` is on top, then right until bit `start` is at
/// the bottom. The outside method panics unless `start < end <= 32`.
#[verifier::external_body]
pub(crate) fn extract_range(value: u32, start: usize, end: usize) -> (r: u32)
    requires
        start < end <= 32,
    ensures
        r == bit_range(value, start as u32, end as u32),
{
    value.bit_range(start..end)
}

/// `BitIndex::set_bit_range` of the `bit` crate on `u32`: the bits
/// `start..end` are cleared and `field`, shifted up by `start`, is or-ed in.
/// The outside method panics unless `start < end <= 32`, the range is
/// narrower than the word and `field` fits in it.
#[verifier::external_body]
pub(crate) fn assign_range(value: &mut u32, start: usize, end: usize, field: u32)
    requires
        start < end <= 32,
        end - start < 32,
        field >> ((end - start) as u32) == 0,
    ensures
        *final(value) == with_bit_range(*old(value), start as u32, end as u32, field),
{
    value.set_bit_range(start..end, field);
}

/// Reading bit `q` after writing bit `pos` gives the written bit if the two
/// positions are the same, and the old bit otherwise.
pub proof fn lemma_with_bit_reads(value: u32, pos: u32, bit: bool, q: u32)
    by (bit_vector)
    requires
        pos < 32,
        q < 32,
    ensures
        bit_is_set(with_bit(value, pos, bit), q) == (if q == pos {
            bit
        } else {
            bit_is_set(value, q)
        }),
{
}

/// Writing bit `pos` leaves alone whatever a mask without that bit selects.
pub proof fn lemma_with_bit_keeps(value: u32, pos: u32, bit: bool, mask: u32)
    by (bit_vector)
    requires
        pos < 32,
        mask & (1u32 << pos) == 0,
    ensures
        with_bit(value, pos, bit) & mask == value & mask,
{
}

} // verus!
