//! Bit fields of an instruction byte, numbered from the most significant bit.

use vstd::prelude::*;
use vstd::arithmetic::power2::{pow2, lemma2_to64};
use vstd::bits::lemma_u32_shl_is_mul;

verus! {

/// The value of bits `start..end` of `byte`, where bit 0 is the most
/// significant bit and bit 7 the least significant one: the byte is divided
/// by the weight of its bit `end - 1`, and the `end - start` lowest bits of
/// the quotient are kept.
pub open spec fn bit_field(byte: u8, start: int, end: int) -> int {
    (byte as int / pow2((8 - end) as nat) as int) % (pow2((end - start) as nat) as int)
}

/// Extracts bits `start..end` of `byte`, counted from the most significant
/// bit: the byte is shifted left until bit `start` leads, then right until
/// only `end - start` bits remain.
pub fn extract_bits(byte: u8, start: u8, end: u8) -> (field: u8)
    requires
        start < end <= 8,
    ensures
        field as int == bit_field(byte, start as int, end as int),
{
    let num_bits: u8 = end - start;
    let field: u8 = (byte << start) >> (8 - num_bits);
    proof {
        let low: u32 = (8 - end) as u32;
        let width: u32 = (end - start) as u32;
        assert(field as u32 == ((byte as u32) / (1u32 << low)) % (1u32 << width)) by (bit_vector)
            requires
                start < end <= 8,
                low == 8 - end,
                width == end - start,
                field == (byte << start) >> ((8 - (end - start)) as u8),
        ;
        lemma2_to64();
        lemma_u32_shl_is_mul(1, low);
        lemma_u32_shl_is_mul(1, width);
    }
    field
}

} // verus!
