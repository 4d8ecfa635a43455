//! The packed result: pointer, failure flag and length in one 64-bit word.
//!
//! Bits 63..32 hold the pointer, bit 31 the failure flag, bits 30..0 the
//! length of the result.

use vstd::prelude::*;

verus! {

/// The failure flag, as it stands in the low half of the word.
pub const FAILURE_FLAG: u32 = 0x8000_0000;

/// Lengths from here on do not fit beside the failure flag.
pub const LENGTH_LIMIT: u32 = 0x8000_0000;

/// The word that carries `pointer`, `length` and `failed`.
pub open spec fn packed(pointer: u32, length: u32, failed: bool) -> u64 {
    ((pointer as u64) << 32) | ((length | if failed { FAILURE_FLAG } else { 0u32 }) as u64)
}

/// Bits 63..32 of a packed word.
pub open spec fn pointer_of(word: u64) -> u32 {
    (word >> 32) as u32
}

/// Bits 30..0 of a packed word.
pub open spec fn length_of(word: u64) -> u32 {
    (word & 0x7fff_ffff) as u32
}

/// Bit 31 of a packed word.
pub open spec fn failed_of(word: u64) -> bool {
    word & 0x8000_0000 != 0
}

/// Packs a pointer, a length below `LENGTH_LIMIT` and the failure flag.
pub fn encode(pointer: u32, length: u32, failed: bool) -> (word: u64)
    requires
        length < LENGTH_LIMIT,
    ensures
        word == packed(pointer, length, failed),
        pointer_of(word) == pointer,
        length_of(word) == length,
        failed_of(word) == failed,
{
    let flag: u32 = if failed { FAILURE_FLAG } else { 0 };
    let word: u64 = ((pointer as u64) << 32) | ((length | flag) as u64);
    proof {
        lemma_fields_of_packed(pointer, length, failed);
    }
    word
}

/// Every field of a packed word reads back as it was written: the pointer and
/// the length whatever the flag is, and the flag itself.
pub proof fn lemma_fields_of_packed(pointer: u32, length: u32, failed: bool)
    requires
        length < LENGTH_LIMIT,
    ensures
        pointer_of(packed(pointer, length, failed)) == pointer,
        length_of(packed(pointer, length, failed)) == length,
        failed_of(packed(pointer, length, failed)) == failed,
{
    let flag: u32 = if failed { FAILURE_FLAG } else { 0u32 };
    let word: u64 = ((pointer as u64) << 32) | ((length | flag) as u64);
    assert(word == packed(pointer, length, failed));
    assert((word >> 32) as u32 == pointer && (word & 0x7fff_ffff) as u32 == length && (word
        & 0x8000_0000 != 0) == (flag != 0)) by (bit_vector)
        requires
            word == ((pointer as u64) << 32) | ((length | flag) as u64),
            length < 0x8000_0000u32,
            flag == 0x8000_0000u32 || flag == 0u32,
    ;
}

/// The flag does not disturb the other two fields: with and without it the
/// word carries the same pointer and the same length.
pub proof fn lemma_flag_keeps_fields(pointer: u32, length: u32)
    requires
        length < LENGTH_LIMIT,
    ensures
        pointer_of(packed(pointer, length, true)) == pointer_of(packed(pointer, length, false)),
        length_of(packed(pointer, length, true)) == length_of(packed(pointer, length, false)),
        packed(pointer, length, true) != packed(pointer, length, false),
{
    lemma_fields_of_packed(pointer, length, true);
    lemma_fields_of_packed(pointer, length, false);
}

} // verus!
