//! Bit-level utilities shared by the decoder and the executor.

use vstd::prelude::*;

verus! {

/// The mathematical value of a 32-bit pattern read as a two's complement
/// signed number.
pub open spec fn signed(x: u32) -> int {
    if x < 0x8000_0000 {
        x as int
    } else {
        x as int - 0x1_0000_0000
    }
}

/// The 32-bit pattern that stands for `v` modulo 2^32.
pub open spec fn wrap32(v: int) -> u32 {
    (v % 0x1_0000_0000) as u32
}

/// Sign extension of the low `size` bits of `data`: the low `size` bits are
/// kept and bit `size - 1` is replicated into every higher bit.
pub open spec fn sign_extend_spec(data: u32, size: u32) -> u32 {
    if size >= 32 {
        data
    } else if (data >> ((size - 1) as u32)) & 1 == 1 {
        data | (0xffff_ffffu32 << size)
    } else {
        data & !(0xffff_ffffu32 << size)
    }
}

} // verus!
