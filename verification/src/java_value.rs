//! How integers and truth values cross to a Java host and back: a Java `int`
//! is 32 bits wide and a `long` 64, both signed, and a `boolean` is a byte.

use vstd::prelude::*;

verus! {

/// The 32-bit pattern of `v` read as a signed number.
pub open spec fn signed32(v: u32) -> int {
    if v <= i32::MAX {
        v as int
    } else {
        v - 0x1_0000_0000
    }
}

/// The 64-bit pattern of `v` read as a signed number.
pub open spec fn signed64(v: u64) -> int {
    if v <= i64::MAX {
        v as int
    } else {
        v - 0x1_0000_0000_0000_0000
    }
}

/// The Java `int` that stands for a `u32`: the greatest `u32` becomes the
/// greatest `int` and zero the least; every other number keeps its bit
/// pattern.
pub open spec fn jint_of_u32(v: u32) -> int {
    if v == u32::MAX {
        i32::MAX as int
    } else if v == 0 {
        i32::MIN as int
    } else {
        signed32(v)
    }
}

/// The Java `long` that stands for a `u64`: the greatest `u64` becomes the
/// greatest `long` and zero the least; every other number keeps its bit
/// pattern.
pub open spec fn jlong_of_u64(v: u64) -> int {
    if v == u64::MAX {
        i64::MAX as int
    } else if v == 0 {
        i64::MIN as int
    } else {
        signed64(v)
    }
}

/// The Java `long` that stands for a `u128`: the greatest `u128` becomes the
/// greatest `long` and zero the least; every other number keeps its low 64
/// bits.
pub open spec fn jlong_of_u128(v: u128) -> int {
    if v == u128::MAX {
        i64::MAX as int
    } else if v == 0 {
        i64::MIN as int
    } else {
        signed64((v % 0x1_0000_0000_0000_0000) as u64)
    }
}

pub fn u32_to_java(v: u32) -> (r: i32)
    ensures
        r == jint_of_u32(v),
{
    if v == u32::MAX {
        i32::MAX
    } else if v == 0 {
        i32::MIN
    } else if v <= 0x7fff_ffff {
        v as i32
    } else {
        (v - 0x8000_0000) as i32 + i32::MIN
    }
}

/// The `u32` with the bit pattern of a Java `int`.
pub fn u32_from_java(v: i32) -> (r: u32)
    ensures
        r == (if v >= 0 {
            v as int
        } else {
            v + 0x1_0000_0000
        }),
{
    if v >= 0 {
        v as u32
    } else {
        (v - i32::MIN) as u32 + 0x8000_0000
    }
}

pub fn u64_to_java(v: u64) -> (r: i64)
    ensures
        r == jlong_of_u64(v),
{
    if v == u64::MAX {
        i64::MAX
    } else if v == 0 {
        i64::MIN
    } else if v <= 0x7fff_ffff_ffff_ffff {
        v as i64
    } else {
        (v - 0x8000_0000_0000_0000) as i64 + i64::MIN
    }
}

/// The `u64` with the bit pattern of a Java `long`.
pub fn u64_from_java(v: i64) -> (r: u64)
    ensures
        r == (if v >= 0 {
            v as int
        } else {
            v + 0x1_0000_0000_0000_0000
        }),
{
    if v >= 0 {
        v as u64
    } else {
        (v - i64::MIN) as u64 + 0x8000_0000_0000_0000
    }
}

/// The Java `long` with the low 64 bits of `v`.
pub fn low_bits_to_java(v: u128) -> (r: i64)
    ensures
        r == signed64((v % 0x1_0000_0000_0000_0000) as u64),
{
    let low = (v % 0x1_0000_0000_0000_0000) as u64;
    if low <= 0x7fff_ffff_ffff_ffff {
        low as i64
    } else {
        (low - 0x8000_0000_0000_0000) as i64 + i64::MIN
    }
}

pub fn u128_to_java(v: u128) -> (r: i64)
    ensures
        r == jlong_of_u128(v),
{
    if v == u128::MAX {
        i64::MAX
    } else if v == 0 {
        i64::MIN
    } else {
        low_bits_to_java(v)
    }
}

/// The `u128` that a Java `long` widens to: a negative `long` keeps its sign
/// bits, and so lies as far below 2^128 as it lies below zero.
pub fn u128_from_java(v: i64) -> (r: u128)
    ensures
        r == (if v >= 0 {
            v as int
        } else {
            v + 0x1_0000_0000_0000_0000_0000_0000_0000_0000
        }),
{
    if v >= 0 {
        v as u128
    } else {
        u128::MAX - ((-(v + 1)) as u128)
    }
}

/// The Java `boolean` of a truth value: 1 for true, 0 for false.
pub fn bool_to_java(v: bool) -> (r: u8)
    ensures
        r == (if v {
            1int
        } else {
            0int
        }),
{
    if v {
        1
    } else {
        0
    }
}

/// The truth value of a Java `boolean`: false for 0, true for all else.
pub fn bool_from_java(v: u8) -> (r: bool)
    ensures
        r == (v != 0),
{
    v != 0
}

} // verus!
