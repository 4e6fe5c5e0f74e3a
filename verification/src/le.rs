//! Little-endian decoding of the fixed-width integers that every lump is
//! made of.

use vstd::prelude::*;

verus! {

/// The unsigned value of `n` little-endian bytes of `s` starting at `at`.
pub open spec fn le_uint(s: Seq<u8>, at: int, n: nat) -> int
    decreases n,
{
    if n == 0 {
        0
    } else {
        s[at] as int + 256 * le_uint(s, at + 1, (n - 1) as nat)
    }
}

/// Reading inside a window of `s` reads the same bytes as reading `s` at
/// the shifted position.
pub proof fn lemma_le_uint_window(s: Seq<u8>, start: int, end: int, at: int, n: nat)
    requires
        0 <= start <= end <= s.len(),
        0 <= at,
        start + at + n <= end,
    ensures
        le_uint(s.subrange(start, end), at, n) == le_uint(s, start + at, n),
    decreases n,
{
    if n > 0 {
        lemma_le_uint_window(s, start, end, at + 1, (n - 1) as nat);
    }
}

pub open spec fn le_u16(s: Seq<u8>, at: int) -> u16 {
    le_uint(s, at, 2) as u16
}

pub open spec fn le_u32(s: Seq<u8>, at: int) -> u32 {
    le_uint(s, at, 4) as u32
}

/// Two's complement reading of a 16-bit little-endian value.
pub open spec fn le_i16(s: Seq<u8>, at: int) -> i16 {
    let u = le_uint(s, at, 2);
    (if u >= 0x8000 { u - 0x10000 } else { u }) as i16
}

/// Two's complement reading of a 32-bit little-endian value.
pub open spec fn le_i32(s: Seq<u8>, at: int) -> i32 {
    let u = le_uint(s, at, 4);
    (if u >= 0x8000_0000 { u - 0x1_0000_0000 } else { u }) as i32
}

/// Two's complement reading of one byte.
pub open spec fn le_i8(s: Seq<u8>, at: int) -> i8 {
    (if s[at] >= 0x80 { s[at] - 0x100 } else { s[at] as int }) as i8
}

pub open spec fn le_u8(s: Seq<u8>, at: int) -> u8 {
    s[at]
}

/// Read a `u8` at byte offset `at`.
pub fn read_u8(bytes: &[u8], at: usize) -> (r: u8)
    requires
        at + 1 <= bytes@.len(),
    ensures
        r == le_u8(bytes@, at as int),
{
    bytes[at]
}

/// Read an `i8` at byte offset `at`.
pub fn read_i8(bytes: &[u8], at: usize) -> (r: i8)
    requires
        at + 1 <= bytes@.len(),
    ensures
        r == le_i8(bytes@, at as int),
{
    let u = bytes[at];
    if u >= 0x80 {
        ((u - 0x80) as i8) - 0x40 - 0x40
    } else {
        u as i8
    }
}

/// Read a `u16` at byte offset `at`.
pub fn read_u16(bytes: &[u8], at: usize) -> (r: u16)
    requires
        at + 2 <= bytes@.len(),
    ensures
        r == le_u16(bytes@, at as int),
        r as int == le_uint(bytes@, at as int, 2),
{
    let r = bytes[at] as u16 + 256 * (bytes[at + 1] as u16);
    proof {
        reveal_with_fuel(le_uint, 3);
    }
    r
}

/// Read a `u32` at byte offset `at`.
pub fn read_u32(bytes: &[u8], at: usize) -> (r: u32)
    requires
        at + 4 <= bytes@.len(),
    ensures
        r == le_u32(bytes@, at as int),
        r as int == le_uint(bytes@, at as int, 4),
{
    let r = bytes[at] as u32 + 256 * (bytes[at + 1] as u32 + 256 * (bytes[at + 2] as u32 + 256
        * (bytes[at + 3] as u32)));
    proof {
        reveal_with_fuel(le_uint, 5);
    }
    r
}

/// Read an `i16` at byte offset `at`.
pub fn read_i16(bytes: &[u8], at: usize) -> (r: i16)
    requires
        at + 2 <= bytes@.len(),
    ensures
        r == le_i16(bytes@, at as int),
{
    let u = read_u16(bytes, at);
    if u >= 0x8000 {
        ((u - 0x8000) as i16) - 0x4000 - 0x4000
    } else {
        u as i16
    }
}

/// Read an `i32` at byte offset `at`.
pub fn read_i32(bytes: &[u8], at: usize) -> (r: i32)
    requires
        at + 4 <= bytes@.len(),
    ensures
        r == le_i32(bytes@, at as int),
{
    let u = read_u32(bytes, at);
    if u >= 0x8000_0000 {
        ((u - 0x8000_0000) as i32) - 0x4000_0000 - 0x4000_0000
    } else {
        u as i32
    }
}

/// An owned copy of `bytes[from..to]`.
pub fn copy_range(bytes: &[u8], from: usize, to: usize) -> (r: Vec<u8>)
    requires
        from <= to <= bytes@.len(),
    ensures
        r@ == bytes@.subrange(from as int, to as int),
{
    let mut out: Vec<u8> = Vec::with_capacity(to - from);
    let mut i = from;
    while i < to
        invariant
            from <= i <= to <= bytes@.len(),
            out@ == bytes@.subrange(from as int, i as int),
        decreases to - i,
    {
        out.push(bytes[i]);
        i = i + 1;
    }
    out
}

} // verus!
