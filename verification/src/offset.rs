//! Sign extension of the ten-bit displacement field.

use vstd::prelude::*;

verus! {

/// The value of bit 9 of the field, which is the sign bit of the displacement.
pub open spec fn sign_bit_set(raw: u16) -> bool {
    (raw as int / 0x200) % 2 == 1
}

/// The sixteen-bit pattern `bits` read as a two's-complement number.
pub open spec fn as_signed(bits: int) -> int {
    if bits < 0x8000 {
        bits
    } else {
        bits - 0x1_0000
    }
}

/// The displacement that the field `raw` encodes.
///
/// When the sign bit is set, the six bits above it are forced to one, so the
/// result is the low ten bits minus 1024. When it is clear, the field is read
/// unchanged as a signed sixteen-bit number, whatever its upper bits hold.
pub open spec fn sign_extended(raw: u16) -> int {
    if sign_bit_set(raw) {
        raw as int % 0x400 - 0x400
    } else {
        as_signed(raw as int)
    }
}

/// Widens the ten-bit two's-complement displacement in the low bits of
/// `offset` to a signed sixteen-bit number.
///
/// Every input is accepted. A field whose bits 10 to 15 are clear yields its
/// ten-bit two's-complement value, which lies between -512 and 511.
pub fn jxx_fix_offset(offset: u16) -> (fixed: i16)
    ensures
        fixed == sign_extended(offset),
        offset < 0x200 ==> fixed == offset && 0 <= fixed <= 511,
        0x200 <= offset < 0x400 ==> fixed == offset - 0x400 && -512 <= fixed <= -1,
{
    assert(offset & 0x200 > 0 <==> (offset / 0x200) % 2 == 1) by (bit_vector);
    if offset & 0x200 > 0 {
        let widened: u16 = offset | 0xfc00;
        assert(widened == offset % 0x400 + 0xfc00) by (bit_vector)
            requires
                widened == offset | 0xfc00,
        ;
        assert(widened >= 0x8000 ==> (widened as i16) == widened - 0x1_0000) by (bit_vector);
        #[verifier::truncate]
        (widened as i16)
    } else {
        assert((offset as i16) == if offset < 0x8000 {
            offset as int
        } else {
            offset - 0x1_0000
        }) by (bit_vector);
        #[verifier::truncate]
        (offset as i16)
    }
}

} // verus!
