//! Shift-and-mask primitives for packed register words, and the round-trip
//! and framing lemmas that every bitfield accessor contract rests on.
//!
//! A field is a bit range `lo..lo+wd` inside a backing word. Readers return
//! `field__(v, lo, wd)`, writers produce `with_field__(v, x, lo, wd)`: a
//! read-modify-write that replaces the range and preserves every other bit.

use vstd::prelude::*;

verus! {

/// Mask with the low `wd` bits of a 32-bit word set.
pub open spec fn mask32(wd: u32) -> u32
    recommends
        wd <= 32,
{
    if wd == 0 {
        0x0u32
    } else if wd == 1 {
        0x1u32
    } else if wd == 2 {
        0x3u32
    } else if wd == 3 {
        0x7u32
    } else if wd == 4 {
        0xfu32
    } else if wd == 5 {
        0x1fu32
    } else if wd == 6 {
        0x3fu32
    } else if wd == 7 {
        0x7fu32
    } else if wd == 8 {
        0xffu32
    } else if wd == 9 {
        0x1ffu32
    } else if wd == 10 {
        0x3ffu32
    } else if wd == 11 {
        0x7ffu32
    } else if wd == 12 {
        0xfffu32
    } else if wd == 13 {
        0x1fffu32
    } else if wd == 14 {
        0x3fffu32
    } else if wd == 15 {
        0x7fffu32
    } else if wd == 16 {
        0xffffu32
    } else if wd == 17 {
        0x1ffffu32
    } else if wd == 18 {
        0x3ffffu32
    } else if wd == 19 {
        0x7ffffu32
    } else if wd == 20 {
        0xfffffu32
    } else if wd == 21 {
        0x1fffffu32
    } else if wd == 22 {
        0x3fffffu32
    } else if wd == 23 {
        0x7fffffu32
    } else if wd == 24 {
        0xffffffu32
    } else if wd == 25 {
        0x1ffffffu32
    } else if wd == 26 {
        0x3ffffffu32
    } else if wd == 27 {
        0x7ffffffu32
    } else if wd == 28 {
        0xfffffffu32
    } else if wd == 29 {
        0x1fffffffu32
    } else if wd == 30 {
        0x3fffffffu32
    } else if wd == 31 {
        0x7fffffffu32
    } else {
        0xffffffffu32
    }
}

/// Mask with the low `wd` bits of a 16-bit word set.
pub open spec fn mask16(wd: u32) -> u16
    recommends
        wd <= 16,
{
    if wd == 0 {
        0x0u16
    } else if wd == 1 {
        0x1u16
    } else if wd == 2 {
        0x3u16
    } else if wd == 3 {
        0x7u16
    } else if wd == 4 {
        0xfu16
    } else if wd == 5 {
        0x1fu16
    } else if wd == 6 {
        0x3fu16
    } else if wd == 7 {
        0x7fu16
    } else if wd == 8 {
        0xffu16
    } else if wd == 9 {
        0x1ffu16
    } else if wd == 10 {
        0x3ffu16
    } else if wd == 11 {
        0x7ffu16
    } else if wd == 12 {
        0xfffu16
    } else if wd == 13 {
        0x1fffu16
    } else if wd == 14 {
        0x3fffu16
    } else if wd == 15 {
        0x7fffu16
    } else {
        0xffffu16
    }
}

/// Mask with the low `wd` bits of a 64-bit word set.
pub open spec fn mask64(wd: u32) -> u64
    recommends
        wd <= 64,
{
    if wd <= 32 {
        mask32(wd) as u64
    } else {
        ((mask32((wd - 32) as u32) as u64) * 0x1_0000_0000u64 + 0xffff_ffffu64) as u64
    }
}

pub fn mask32_exec(wd: u32) -> (r: u32)
    requires
        wd <= 32,
    ensures
        r == mask32(wd),
{
    if wd >= 32 {
        0xffff_ffffu32
    } else {
        proof {
            assert(wd < 32 ==> (1u32 << wd) >= 1 && (1u32 << wd) - 1 == mask32(wd)) by (bit_vector);
        }
        (1u32 << wd) - 1
    }
}

pub fn mask16_exec(wd: u32) -> (r: u16)
    requires
        wd <= 16,
    ensures
        r == mask16(wd),
{
    if wd >= 16 {
        0xffffu16
    } else {
        proof {
            assert(wd < 16 ==> (1u16 << wd) >= 1 && (1u16 << wd) - 1 == mask16(wd)) by (bit_vector);
        }
        (1u16 << wd) - 1
    }
}

pub fn mask64_exec(wd: u32) -> (r: u64)
    requires
        wd <= 64,
    ensures
        r == mask64(wd),
{
    if wd <= 32 {
        mask32_exec(wd) as u64
    } else {
        (mask32_exec(wd - 32) as u64) * 0x1_0000_0000u64 + 0xffff_ffffu64
    }
}

// ------------------------------------------------------------------
// 32-bit words
// ------------------------------------------------------------------

/// The value of the field at `lo..lo+wd` of `v`.
pub open spec fn field32(v: u32, lo: u32, wd: u32) -> u32
    recommends
        lo < 32,
        0 < wd,
        lo + wd <= 32,
{
    (v >> lo) & mask32(wd)
}

/// `v` with the field at `lo..lo+wd` replaced by the low `wd` bits of `x`;
/// all bits outside the range are preserved.
pub open spec fn with_field32(v: u32, x: u32, lo: u32, wd: u32) -> u32
    recommends
        lo < 32,
        0 < wd,
        lo + wd <= 32,
{
    (v & !(mask32(wd) << lo)) | ((x & mask32(wd)) << lo)
}

/// Whether bit `i` of `v` is set.
pub open spec fn bit32(v: u32, i: u32) -> bool
    recommends
        i < 32,
{
    (v >> i) & 1u32 == 1u32
}

/// `v` with bit `i` forced to `b`; all other bits are preserved.
pub open spec fn with_bit32(v: u32, i: u32, b: bool) -> u32
    recommends
        i < 32,
{
    if b {
        v | (1u32 << i)
    } else {
        v & !(1u32 << i)
    }
}

pub fn get_field32(v: u32, lo: u32, wd: u32) -> (r: u32)
    requires
        lo < 32,
        0 < wd,
        lo + wd <= 32,
    ensures
        r == field32(v, lo, wd),
        r <= mask32(wd),
{
    let m: u32 = mask32_exec(wd);
    proof {
        assert((v >> lo) & m <= m) by (bit_vector);
    }
    (v >> lo) & m
}

pub fn set_field32(v: u32, x: u32, lo: u32, wd: u32) -> (r: u32)
    requires
        lo < 32,
        0 < wd,
        lo + wd <= 32,
    ensures
        r == with_field32(v, x, lo, wd),
{
    let m: u32 = mask32_exec(wd);
    (v & !(m << lo)) | ((x & m) << lo)
}

pub fn get_bit32(v: u32, i: u32) -> (r: bool)
    requires
        i < 32,
    ensures
        r == bit32(v, i),
{
    (v >> i) & 1u32 == 1u32
}

pub fn set_bit32(v: u32, i: u32, b: bool) -> (r: u32)
    requires
        i < 32,
    ensures
        r == with_bit32(v, i, b),
{
    if b {
        v | (1u32 << i)
    } else {
        v & !(1u32 << i)
    }
}

// ------------------------------------------------------------------
// 16-bit words
// ------------------------------------------------------------------

/// The value of the field at `lo..lo+wd` of `v`.
pub open spec fn field16(v: u16, lo: u32, wd: u32) -> u16
    recommends
        lo < 16,
        0 < wd,
        lo + wd <= 16,
{
    (v >> lo) & mask16(wd)
}

/// `v` with the field at `lo..lo+wd` replaced by the low `wd` bits of `x`.
pub open spec fn with_field16(v: u16, x: u16, lo: u32, wd: u32) -> u16
    recommends
        lo < 16,
        0 < wd,
        lo + wd <= 16,
{
    (v & !(mask16(wd) << lo)) | ((x & mask16(wd)) << lo)
}

/// Whether bit `i` of `v` is set.
pub open spec fn bit16(v: u16, i: u32) -> bool
    recommends
        i < 16,
{
    (v >> i) & 1u16 == 1u16
}

/// `v` with bit `i` forced to `b`; all other bits are preserved.
pub open spec fn with_bit16(v: u16, i: u32, b: bool) -> u16
    recommends
        i < 16,
{
    if b {
        v | (1u16 << i)
    } else {
        v & !(1u16 << i)
    }
}

pub fn get_field16(v: u16, lo: u32, wd: u32) -> (r: u16)
    requires
        lo < 16,
        0 < wd,
        lo + wd <= 16,
    ensures
        r == field16(v, lo, wd),
        r <= mask16(wd),
{
    let m: u16 = mask16_exec(wd);
    proof {
        assert((v >> lo) & m <= m) by (bit_vector);
    }
    (v >> lo) & m
}

pub fn set_field16(v: u16, x: u16, lo: u32, wd: u32) -> (r: u16)
    requires
        lo < 16,
        0 < wd,
        lo + wd <= 16,
    ensures
        r == with_field16(v, x, lo, wd),
{
    let m: u16 = mask16_exec(wd);
    (v & !(m << lo)) | ((x & m) << lo)
}

pub fn get_bit16(v: u16, i: u32) -> (r: bool)
    requires
        i < 16,
    ensures
        r == bit16(v, i),
{
    (v >> i) & 1u16 == 1u16
}

pub fn set_bit16(v: u16, i: u32, b: bool) -> (r: u16)
    requires
        i < 16,
    ensures
        r == with_bit16(v, i, b),
{
    if b {
        v | (1u16 << i)
    } else {
        v & !(1u16 << i)
    }
}

// ------------------------------------------------------------------
// 64-bit words
// ------------------------------------------------------------------

/// The value of the field at `lo..lo+wd` of `v`.
pub open spec fn field64(v: u64, lo: u32, wd: u32) -> u64
    recommends
        lo < 64,
        0 < wd,
        lo + wd <= 64,
{
    (v >> lo) & mask64(wd)
}

/// `v` with the field at `lo..lo+wd` replaced by the low `wd` bits of `x`.
pub open spec fn with_field64(v: u64, x: u64, lo: u32, wd: u32) -> u64
    recommends
        lo < 64,
        0 < wd,
        lo + wd <= 64,
{
    (v & !(mask64(wd) << lo)) | ((x & mask64(wd)) << lo)
}

/// Whether bit `i` of `v` is set.
pub open spec fn bit64(v: u64, i: u32) -> bool
    recommends
        i < 64,
{
    (v >> i) & 1u64 == 1u64
}

/// `v` with bit `i` forced to `b`; all other bits are preserved.
pub open spec fn with_bit64(v: u64, i: u32, b: bool) -> u64
    recommends
        i < 64,
{
    if b {
        v | (1u64 << i)
    } else {
        v & !(1u64 << i)
    }
}

pub fn get_field64(v: u64, lo: u32, wd: u32) -> (r: u64)
    requires
        lo < 64,
        0 < wd,
        lo + wd <= 64,
    ensures
        r == field64(v, lo, wd),
        r <= mask64(wd),
{
    let m: u64 = mask64_exec(wd);
    proof {
        assert((v >> lo) & m <= m) by (bit_vector);
    }
    (v >> lo) & m
}

pub fn set_field64(v: u64, x: u64, lo: u32, wd: u32) -> (r: u64)
    requires
        lo < 64,
        0 < wd,
        lo + wd <= 64,
    ensures
        r == with_field64(v, x, lo, wd),
{
    let m: u64 = mask64_exec(wd);
    (v & !(m << lo)) | ((x & m) << lo)
}

pub fn get_bit64(v: u64, i: u32) -> (r: bool)
    requires
        i < 64,
    ensures
        r == bit64(v, i),
{
    (v >> i) & 1u64 == 1u64
}

pub fn set_bit64(v: u64, i: u32, b: bool) -> (r: u64)
    requires
        i < 64,
    ensures
        r == with_bit64(v, i, b),
{
    if b {
        v | (1u64 << i)
    } else {
        v & !(1u64 << i)
    }
}

// ------------------------------------------------------------------
// Laws: round trip and framing
// ------------------------------------------------------------------

/// Reading a field back after writing it yields the written value
/// (masked to the field width).
pub proof fn lemma_with_field32_read(v: u32, x: u32, lo: u32, wd: u32)
    by (bit_vector)
    requires
        lo < 32,
        0 < wd,
        lo + wd <= 32,
    ensures
        field32(with_field32(v, x, lo, wd), lo, wd) == x & mask32(wd),
        x <= mask32(wd) ==> field32(with_field32(v, x, lo, wd), lo, wd) == x,
{
}

/// Writing a field leaves every bit outside its range unchanged.
pub proof fn lemma_with_field32_frame(v: u32, x: u32, lo: u32, wd: u32, i: u32)
    by (bit_vector)
    requires
        lo < 32,
        0 < wd,
        lo + wd <= 32,
        i < 32,
        i < lo || lo + wd <= i,
    ensures
        bit32(with_field32(v, x, lo, wd), i) == bit32(v, i),
{
}

/// Writing a field leaves every disjoint field unchanged.
pub proof fn lemma_with_field32_other(v: u32, x: u32, lo: u32, wd: u32, lo2: u32, wd2: u32)
    by (bit_vector)
    requires
        lo < 32,
        0 < wd,
        lo + wd <= 32,
        lo2 < 32,
        0 < wd2,
        lo2 + wd2 <= 32,
        lo2 + wd2 <= lo || lo + wd <= lo2,
    ensures
        field32(with_field32(v, x, lo, wd), lo2, wd2) == field32(v, lo2, wd2),
{
}

/// Forcing one bit yields that bit on read back and leaves every other bit
/// unchanged.
pub proof fn lemma_with_bit32(v: u32, i: u32, b: bool, j: u32)
    by (bit_vector)
    requires
        i < 32,
        j < 32,
    ensures
        bit32(with_bit32(v, i, b), i) == b,
        i != j ==> bit32(with_bit32(v, i, b), j) == bit32(v, j),
{
}

/// Forcing one bit leaves every field that does not contain it unchanged.
pub proof fn lemma_with_bit32_other(v: u32, i: u32, b: bool, lo2: u32, wd2: u32)
    by (bit_vector)
    requires
        i < 32,
        lo2 < 32,
        0 < wd2,
        lo2 + wd2 <= 32,
        i < lo2 || lo2 + wd2 <= i,
    ensures
        field32(with_bit32(v, i, b), lo2, wd2) == field32(v, lo2, wd2),
{
}

/// 16-bit variant of the field round trip law.
pub proof fn lemma_with_field16_read(v: u16, x: u16, lo: u32, wd: u32)
    by (bit_vector)
    requires
        lo < 16,
        0 < wd,
        lo + wd <= 16,
    ensures
        field16(with_field16(v, x, lo, wd), lo, wd) == x & mask16(wd),
        x <= mask16(wd) ==> field16(with_field16(v, x, lo, wd), lo, wd) == x,
{
}

/// 16-bit variant of the field framing law.
pub proof fn lemma_with_field16_frame(v: u16, x: u16, lo: u32, wd: u32, i: u32)
    by (bit_vector)
    requires
        lo < 16,
        0 < wd,
        lo + wd <= 16,
        i < 16,
        i < lo || lo + wd <= i,
    ensures
        bit16(with_field16(v, x, lo, wd), i) == bit16(v, i),
{
}

/// 16-bit variant of the single-bit law.
pub proof fn lemma_with_bit16(v: u16, i: u32, b: bool, j: u32)
    by (bit_vector)
    requires
        i < 16,
        j < 16,
    ensures
        bit16(with_bit16(v, i, b), i) == b,
        i != j ==> bit16(with_bit16(v, i, b), j) == bit16(v, j),
{
}

/// 64-bit variant of the field round trip law.
pub proof fn lemma_with_field64_read(v: u64, x: u64, lo: u32, wd: u32)
    by (bit_vector)
    requires
        lo < 64,
        0 < wd,
        lo + wd <= 64,
    ensures
        field64(with_field64(v, x, lo, wd), lo, wd) == x & mask64(wd),
        x <= mask64(wd) ==> field64(with_field64(v, x, lo, wd), lo, wd) == x,
{
}

/// 64-bit variant of the field framing law.
pub proof fn lemma_with_field64_frame(v: u64, x: u64, lo: u32, wd: u32, i: u32)
    by (bit_vector)
    requires
        lo < 64,
        0 < wd,
        lo + wd <= 64,
        i < 64,
        i < lo || lo + wd <= i,
    ensures
        bit64(with_field64(v, x, lo, wd), i) == bit64(v, i),
{
}

/// 64-bit variant of the single-bit law.
pub proof fn lemma_with_bit64(v: u64, i: u32, b: bool, j: u32)
    by (bit_vector)
    requires
        i < 64,
        j < 64,
    ensures
        bit64(with_bit64(v, i, b), i) == b,
        i != j ==> bit64(with_bit64(v, i, b), j) == bit64(v, j),
{
}

/// Splitting a 64-bit value into its dword halves and joining them again
/// yields the value back.
pub proof fn lemma_split_join64(p: u64)
    by (bit_vector)
    ensures
        (((p >> 32) as u32 as u64) << 32) | (p as u32 as u64) == p,
{
}

/// Power-of-two alignment, as arithmetic and as a mask test.
pub proof fn lemma_align64(p: u64)
    by (bit_vector)
    ensures
        (p % 16 == 0) == (p & mask64(4) == 0),
        (p % 64 == 0) == (p & mask64(6) == 0),
        p % 64 == 0 ==> p % 16 == 0,
        p % 64 == 0 ==> p & !mask64(4) == p,
        p % 16 == 0 ==> p & !mask64(4) == p,
{
}

/// The zero-trailing writer law: a value whose low `k` bits are zero is
/// stored into a `k`-zero-trailing field exactly and reads back exactly,
/// while the bits below the field are preserved from the old word.
pub proof fn lemma_zero_trailing64(old_w: u64, v: u64, k: u32)
    by (bit_vector)
    requires
        k < 64,
        v & mask64(k) == 0,
    ensures
        (((old_w & mask64(k)) | v) & !mask64(k)) == v,
        (((old_w & mask64(k)) | v) & mask64(k)) == old_w & mask64(k),
{
}

/// The 32-bit variant of the zero-trailing writer law.
pub proof fn lemma_zero_trailing32(old_w: u32, v: u32, k: u32)
    by (bit_vector)
    requires
        k < 32,
        v & mask32(k) == 0,
    ensures
        (((old_w & mask32(k)) | v) & !mask32(k)) == v,
        (((old_w & mask32(k)) | v) & mask32(k)) == old_w & mask32(k),
{
}

} // verus!
