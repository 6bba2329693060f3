//! The operations that the C++ bridge exposes, on plain integers, byte
//! slices and the buffer records shared with C++.
use vstd::prelude::*;

use crate::conversion;
use crate::conversion::{converted, from_be_seq, reversed, to_be_seq, EndianReversible, Order};

verus! {

/// Copies `b` over the first `b.len()` bytes of `p`, leaving the rest as it was.
fn copy_prefix(p: &mut [u8], b: &[u8])
    requires
        b@.len() <= old(p)@.len(),
    ensures
        final(p)@ == b@ + old(p)@.subrange(b@.len() as int, old(p)@.len() as int),
{
    let mut i: usize = 0;
    while i < b.len()
        invariant
            i <= b@.len() <= old(p)@.len(),
            p@.len() == old(p)@.len(),
            forall|k: int| 0 <= k < i ==> p@[k] == b@[k],
            forall|k: int| i <= k < p@.len() ==> p@[k] == old(p)@[k],
        decreases b@.len() - i,
    {
        p[i] = b[i];
        i = i + 1;
    }
    assert(p@ =~= b@ + old(p)@.subrange(b@.len() as int, old(p)@.len() as int));
}

/// Returns `v` with its bytes reversed.
pub fn endian_reverse_u16(v: u16) -> (r: u16)
    ensures
        r == reversed(v),
{
    conversion::endian_reverse(v)
}

/// Returns `v` with its bytes reversed.
pub fn endian_reverse_i16(v: i16) -> (r: i16)
    ensures
        r == reversed(v),
{
    conversion::endian_reverse(v)
}

/// Returns `v` with its bytes reversed.
pub fn endian_reverse_u32(v: u32) -> (r: u32)
    ensures
        r == reversed(v),
{
    conversion::endian_reverse(v)
}

/// Returns `v` with its bytes reversed.
pub fn endian_reverse_i32(v: i32) -> (r: i32)
    ensures
        r == reversed(v),
{
    conversion::endian_reverse(v)
}

/// Returns `v` with its bytes reversed.
pub fn endian_reverse_u64(v: u64) -> (r: u64)
    ensures
        r == reversed(v),
{
    conversion::endian_reverse(v)
}

/// Returns `v` with its bytes reversed.
pub fn endian_reverse_i64(v: i64) -> (r: i64)
    ensures
        r == reversed(v),
{
    conversion::endian_reverse(v)
}

/// `big_to_native` on a `u16`.
pub fn big_to_native_u16(v: u16) -> (r: u16)
    ensures
        r == converted(v, Order::Big, Order::Native),
{
    conversion::big_to_native(v)
}

/// `big_to_native` on a `i16`.
pub fn big_to_native_i16(v: i16) -> (r: i16)
    ensures
        r == converted(v, Order::Big, Order::Native),
{
    conversion::big_to_native(v)
}

/// `big_to_native` on a `u32`.
pub fn big_to_native_u32(v: u32) -> (r: u32)
    ensures
        r == converted(v, Order::Big, Order::Native),
{
    conversion::big_to_native(v)
}

/// `big_to_native` on a `i32`.
pub fn big_to_native_i32(v: i32) -> (r: i32)
    ensures
        r == converted(v, Order::Big, Order::Native),
{
    conversion::big_to_native(v)
}

/// `big_to_native` on a `u64`.
pub fn big_to_native_u64(v: u64) -> (r: u64)
    ensures
        r == converted(v, Order::Big, Order::Native),
{
    conversion::big_to_native(v)
}

/// `big_to_native` on a `i64`.
pub fn big_to_native_i64(v: i64) -> (r: i64)
    ensures
        r == converted(v, Order::Big, Order::Native),
{
    conversion::big_to_native(v)
}

/// `native_to_big` on a `u16`.
pub fn native_to_big_u16(v: u16) -> (r: u16)
    ensures
        r == converted(v, Order::Native, Order::Big),
{
    conversion::native_to_big(v)
}

/// `native_to_big` on a `i16`.
pub fn native_to_big_i16(v: i16) -> (r: i16)
    ensures
        r == converted(v, Order::Native, Order::Big),
{
    conversion::native_to_big(v)
}

/// `native_to_big` on a `u32`.
pub fn native_to_big_u32(v: u32) -> (r: u32)
    ensures
        r == converted(v, Order::Native, Order::Big),
{
    conversion::native_to_big(v)
}

/// `native_to_big` on a `i32`.
pub fn native_to_big_i32(v: i32) -> (r: i32)
    ensures
        r == converted(v, Order::Native, Order::Big),
{
    conversion::native_to_big(v)
}

/// `native_to_big` on a `u64`.
pub fn native_to_big_u64(v: u64) -> (r: u64)
    ensures
        r == converted(v, Order::Native, Order::Big),
{
    conversion::native_to_big(v)
}

/// `native_to_big` on a `i64`.
pub fn native_to_big_i64(v: i64) -> (r: i64)
    ensures
        r == converted(v, Order::Native, Order::Big),
{
    conversion::native_to_big(v)
}

/// `little_to_native` on a `u16`.
pub fn little_to_native_u16(v: u16) -> (r: u16)
    ensures
        r == converted(v, Order::Little, Order::Native),
{
    conversion::little_to_native(v)
}

/// `little_to_native` on a `i16`.
pub fn little_to_native_i16(v: i16) -> (r: i16)
    ensures
        r == converted(v, Order::Little, Order::Native),
{
    conversion::little_to_native(v)
}

/// `little_to_native` on a `u32`.
pub fn little_to_native_u32(v: u32) -> (r: u32)
    ensures
        r == converted(v, Order::Little, Order::Native),
{
    conversion::little_to_native(v)
}

/// `little_to_native` on a `i32`.
pub fn little_to_native_i32(v: i32) -> (r: i32)
    ensures
        r == converted(v, Order::Little, Order::Native),
{
    conversion::little_to_native(v)
}

/// `little_to_native` on a `u64`.
pub fn little_to_native_u64(v: u64) -> (r: u64)
    ensures
        r == converted(v, Order::Little, Order::Native),
{
    conversion::little_to_native(v)
}

/// `little_to_native` on a `i64`.
pub fn little_to_native_i64(v: i64) -> (r: i64)
    ensures
        r == converted(v, Order::Little, Order::Native),
{
    conversion::little_to_native(v)
}

/// `native_to_little` on a `u16`.
pub fn native_to_little_u16(v: u16) -> (r: u16)
    ensures
        r == converted(v, Order::Native, Order::Little),
{
    conversion::native_to_little(v)
}

/// `native_to_little` on a `i16`.
pub fn native_to_little_i16(v: i16) -> (r: i16)
    ensures
        r == converted(v, Order::Native, Order::Little),
{
    conversion::native_to_little(v)
}

/// `native_to_little` on a `u32`.
pub fn native_to_little_u32(v: u32) -> (r: u32)
    ensures
        r == converted(v, Order::Native, Order::Little),
{
    conversion::native_to_little(v)
}

/// `native_to_little` on a `i32`.
pub fn native_to_little_i32(v: i32) -> (r: i32)
    ensures
        r == converted(v, Order::Native, Order::Little),
{
    conversion::native_to_little(v)
}

/// `native_to_little` on a `u64`.
pub fn native_to_little_u64(v: u64) -> (r: u64)
    ensures
        r == converted(v, Order::Native, Order::Little),
{
    conversion::native_to_little(v)
}

/// `native_to_little` on a `i64`.
pub fn native_to_little_i64(v: i64) -> (r: i64)
    ensures
        r == converted(v, Order::Native, Order::Little),
{
    conversion::native_to_little(v)
}

/// Reads the first 2 bytes of `p` as an unsigned big-endian integer.
pub fn load_big_u16(p: &[u8]) -> (r: u16)
    requires
        p@.len() >= 2,
    ensures
        r == from_be_seq::<u16>(p@.subrange(0, 2)),
{
    let b: [u8; 2] = [p[0], p[1]];
    proof {
        assert(b@ =~= p@.subrange(0, 2));
    }
    conversion::load_big_u16(&b)
}

/// Reads the first 2 bytes of `p` as an unsigned little-endian integer.
pub fn load_little_u16(p: &[u8]) -> (r: u16)
    requires
        p@.len() >= 2,
    ensures
        r == <u16 as EndianReversible>::from_le_seq(p@.subrange(0, 2)),
{
    let b: [u8; 2] = [p[0], p[1]];
    proof {
        assert(b@ =~= p@.subrange(0, 2));
    }
    conversion::load_little_u16(&b)
}

/// Reads the first 2 bytes of `p` as a signed big-endian integer.
pub fn load_big_s16(p: &[u8]) -> (r: i16)
    requires
        p@.len() >= 2,
    ensures
        r == from_be_seq::<i16>(p@.subrange(0, 2)),
{
    let b: [u8; 2] = [p[0], p[1]];
    proof {
        assert(b@ =~= p@.subrange(0, 2));
    }
    conversion::load_big_s16(&b)
}

/// Reads the first 2 bytes of `p` as a signed little-endian integer.
pub fn load_little_s16(p: &[u8]) -> (r: i16)
    requires
        p@.len() >= 2,
    ensures
        r == <i16 as EndianReversible>::from_le_seq(p@.subrange(0, 2)),
{
    let b: [u8; 2] = [p[0], p[1]];
    proof {
        assert(b@ =~= p@.subrange(0, 2));
    }
    conversion::load_little_s16(&b)
}

/// Reads the first 4 bytes of `p` as an unsigned big-endian integer.
pub fn load_big_u32(p: &[u8]) -> (r: u32)
    requires
        p@.len() >= 4,
    ensures
        r == from_be_seq::<u32>(p@.subrange(0, 4)),
{
    let b: [u8; 4] = [p[0], p[1], p[2], p[3]];
    proof {
        assert(b@ =~= p@.subrange(0, 4));
    }
    conversion::load_big_u32(&b)
}

/// Reads the first 4 bytes of `p` as an unsigned little-endian integer.
pub fn load_little_u32(p: &[u8]) -> (r: u32)
    requires
        p@.len() >= 4,
    ensures
        r == <u32 as EndianReversible>::from_le_seq(p@.subrange(0, 4)),
{
    let b: [u8; 4] = [p[0], p[1], p[2], p[3]];
    proof {
        assert(b@ =~= p@.subrange(0, 4));
    }
    conversion::load_little_u32(&b)
}

/// Reads the first 4 bytes of `p` as a signed big-endian integer.
pub fn load_big_s32(p: &[u8]) -> (r: i32)
    requires
        p@.len() >= 4,
    ensures
        r == from_be_seq::<i32>(p@.subrange(0, 4)),
{
    let b: [u8; 4] = [p[0], p[1], p[2], p[3]];
    proof {
        assert(b@ =~= p@.subrange(0, 4));
    }
    conversion::load_big_s32(&b)
}

/// Reads the first 4 bytes of `p` as a signed little-endian integer.
pub fn load_little_s32(p: &[u8]) -> (r: i32)
    requires
        p@.len() >= 4,
    ensures
        r == <i32 as EndianReversible>::from_le_seq(p@.subrange(0, 4)),
{
    let b: [u8; 4] = [p[0], p[1], p[2], p[3]];
    proof {
        assert(b@ =~= p@.subrange(0, 4));
    }
    conversion::load_little_s32(&b)
}

/// Reads the first 8 bytes of `p` as an unsigned big-endian integer.
pub fn load_big_u64(p: &[u8]) -> (r: u64)
    requires
        p@.len() >= 8,
    ensures
        r == from_be_seq::<u64>(p@.subrange(0, 8)),
{
    let b: [u8; 8] = [p[0], p[1], p[2], p[3], p[4], p[5], p[6], p[7]];
    proof {
        assert(b@ =~= p@.subrange(0, 8));
    }
    conversion::load_big_u64(&b)
}

/// Reads the first 8 bytes of `p` as an unsigned little-endian integer.
pub fn load_little_u64(p: &[u8]) -> (r: u64)
    requires
        p@.len() >= 8,
    ensures
        r == <u64 as EndianReversible>::from_le_seq(p@.subrange(0, 8)),
{
    let b: [u8; 8] = [p[0], p[1], p[2], p[3], p[4], p[5], p[6], p[7]];
    proof {
        assert(b@ =~= p@.subrange(0, 8));
    }
    conversion::load_little_u64(&b)
}

/// Reads the first 8 bytes of `p` as a signed big-endian integer.
pub fn load_big_s64(p: &[u8]) -> (r: i64)
    requires
        p@.len() >= 8,
    ensures
        r == from_be_seq::<i64>(p@.subrange(0, 8)),
{
    let b: [u8; 8] = [p[0], p[1], p[2], p[3], p[4], p[5], p[6], p[7]];
    proof {
        assert(b@ =~= p@.subrange(0, 8));
    }
    conversion::load_big_s64(&b)
}

/// Reads the first 8 bytes of `p` as a signed little-endian integer.
pub fn load_little_s64(p: &[u8]) -> (r: i64)
    requires
        p@.len() >= 8,
    ensures
        r == <i64 as EndianReversible>::from_le_seq(p@.subrange(0, 8)),
{
    let b: [u8; 8] = [p[0], p[1], p[2], p[3], p[4], p[5], p[6], p[7]];
    proof {
        assert(b@ =~= p@.subrange(0, 8));
    }
    conversion::load_little_s64(&b)
}

/// Writes `v` in big-endian byte order over the first 2 bytes of `p`.
pub fn store_big_u16(p: &mut [u8], v: u16)
    requires
        old(p)@.len() >= 2,
    ensures
        final(p)@ == to_be_seq(v) + old(p)@.subrange(2, old(p)@.len() as int),
{
    let mut b = [0u8; 2];
    conversion::store_big_u16(&mut b, v);
    copy_prefix(p, &b);
}

/// Writes `v` in little-endian byte order over the first 2 bytes of `p`.
pub fn store_little_u16(p: &mut [u8], v: u16)
    requires
        old(p)@.len() >= 2,
    ensures
        final(p)@ == v.to_le_seq() + old(p)@.subrange(2, old(p)@.len() as int),
{
    let mut b = [0u8; 2];
    conversion::store_little_u16(&mut b, v);
    copy_prefix(p, &b);
}

/// Writes `v` in big-endian byte order over the first 2 bytes of `p`.
pub fn store_big_s16(p: &mut [u8], v: i16)
    requires
        old(p)@.len() >= 2,
    ensures
        final(p)@ == to_be_seq(v) + old(p)@.subrange(2, old(p)@.len() as int),
{
    let mut b = [0u8; 2];
    conversion::store_big_s16(&mut b, v);
    copy_prefix(p, &b);
}

/// Writes `v` in little-endian byte order over the first 2 bytes of `p`.
pub fn store_little_s16(p: &mut [u8], v: i16)
    requires
        old(p)@.len() >= 2,
    ensures
        final(p)@ == v.to_le_seq() + old(p)@.subrange(2, old(p)@.len() as int),
{
    let mut b = [0u8; 2];
    conversion::store_little_s16(&mut b, v);
    copy_prefix(p, &b);
}

/// Writes `v` in big-endian byte order over the first 4 bytes of `p`.
pub fn store_big_u32(p: &mut [u8], v: u32)
    requires
        old(p)@.len() >= 4,
    ensures
        final(p)@ == to_be_seq(v) + old(p)@.subrange(4, old(p)@.len() as int),
{
    let mut b = [0u8; 4];
    conversion::store_big_u32(&mut b, v);
    copy_prefix(p, &b);
}

/// Writes `v` in little-endian byte order over the first 4 bytes of `p`.
pub fn store_little_u32(p: &mut [u8], v: u32)
    requires
        old(p)@.len() >= 4,
    ensures
        final(p)@ == v.to_le_seq() + old(p)@.subrange(4, old(p)@.len() as int),
{
    let mut b = [0u8; 4];
    conversion::store_little_u32(&mut b, v);
    copy_prefix(p, &b);
}

/// Writes `v` in big-endian byte order over the first 4 bytes of `p`.
pub fn store_big_s32(p: &mut [u8], v: i32)
    requires
        old(p)@.len() >= 4,
    ensures
        final(p)@ == to_be_seq(v) + old(p)@.subrange(4, old(p)@.len() as int),
{
    let mut b = [0u8; 4];
    conversion::store_big_s32(&mut b, v);
    copy_prefix(p, &b);
}

/// Writes `v` in little-endian byte order over the first 4 bytes of `p`.
pub fn store_little_s32(p: &mut [u8], v: i32)
    requires
        old(p)@.len() >= 4,
    ensures
        final(p)@ == v.to_le_seq() + old(p)@.subrange(4, old(p)@.len() as int),
{
    let mut b = [0u8; 4];
    conversion::store_little_s32(&mut b, v);
    copy_prefix(p, &b);
}

/// Writes `v` in big-endian byte order over the first 8 bytes of `p`.
pub fn store_big_u64(p: &mut [u8], v: u64)
    requires
        old(p)@.len() >= 8,
    ensures
        final(p)@ == to_be_seq(v) + old(p)@.subrange(8, old(p)@.len() as int),
{
    let mut b = [0u8; 8];
    conversion::store_big_u64(&mut b, v);
    copy_prefix(p, &b);
}

/// Writes `v` in little-endian byte order over the first 8 bytes of `p`.
pub fn store_little_u64(p: &mut [u8], v: u64)
    requires
        old(p)@.len() >= 8,
    ensures
        final(p)@ == v.to_le_seq() + old(p)@.subrange(8, old(p)@.len() as int),
{
    let mut b = [0u8; 8];
    conversion::store_little_u64(&mut b, v);
    copy_prefix(p, &b);
}

/// Writes `v` in big-endian byte order over the first 8 bytes of `p`.
pub fn store_big_s64(p: &mut [u8], v: i64)
    requires
        old(p)@.len() >= 8,
    ensures
        final(p)@ == to_be_seq(v) + old(p)@.subrange(8, old(p)@.len() as int),
{
    let mut b = [0u8; 8];
    conversion::store_big_s64(&mut b, v);
    copy_prefix(p, &b);
}

/// Writes `v` in little-endian byte order over the first 8 bytes of `p`.
pub fn store_little_s64(p: &mut [u8], v: i64)
    requires
        old(p)@.len() >= 8,
    ensures
        final(p)@ == v.to_le_seq() + old(p)@.subrange(8, old(p)@.len() as int),
{
    let mut b = [0u8; 8];
    conversion::store_little_s64(&mut b, v);
    copy_prefix(p, &b);
}

/// A signed 16-bit value shared with C++, `raw` holding it in
/// big-endian byte order.
#[derive(Debug, Clone, Copy, PartialEq, Eq, Structural)]
pub struct BigInt16Buf {
    pub raw: i16,
}

/// Holds the native value `v` in a `BigInt16Buf`.
pub fn big_int16_buf_new(v: i16) -> (b: BigInt16Buf)
    ensures
        b.raw == converted(v, Order::Native, Order::Big),
{
    BigInt16Buf { raw: conversion::native_to_big(v) }
}

/// The native value held in `b`.
pub fn big_int16_buf_get(b: BigInt16Buf) -> (r: i16)
    ensures
        r == converted(b.raw, Order::Big, Order::Native),
{
    conversion::big_to_native(b.raw)
}

/// A signed 32-bit value shared with C++, `raw` holding it in
/// big-endian byte order.
#[derive(Debug, Clone, Copy, PartialEq, Eq, Structural)]
pub struct BigInt32Buf {
    pub raw: i32,
}

/// Holds the native value `v` in a `BigInt32Buf`.
pub fn big_int32_buf_new(v: i32) -> (b: BigInt32Buf)
    ensures
        b.raw == converted(v, Order::Native, Order::Big),
{
    BigInt32Buf { raw: conversion::native_to_big(v) }
}

/// The native value held in `b`.
pub fn big_int32_buf_get(b: BigInt32Buf) -> (r: i32)
    ensures
        r == converted(b.raw, Order::Big, Order::Native),
{
    conversion::big_to_native(b.raw)
}

/// A signed 64-bit value shared with C++, `raw` holding it in
/// big-endian byte order.
#[derive(Debug, Clone, Copy, PartialEq, Eq, Structural)]
pub struct BigInt64Buf {
    pub raw: i64,
}

/// Holds the native value `v` in a `BigInt64Buf`.
pub fn big_int64_buf_new(v: i64) -> (b: BigInt64Buf)
    ensures
        b.raw == converted(v, Order::Native, Order::Big),
{
    BigInt64Buf { raw: conversion::native_to_big(v) }
}

/// The native value held in `b`.
pub fn big_int64_buf_get(b: BigInt64Buf) -> (r: i64)
    ensures
        r == converted(b.raw, Order::Big, Order::Native),
{
    conversion::big_to_native(b.raw)
}

/// A unsigned 16-bit value shared with C++, `raw` holding it in
/// big-endian byte order.
#[derive(Debug, Clone, Copy, PartialEq, Eq, Structural)]
pub struct BigUInt16Buf {
    pub raw: u16,
}

/// Holds the native value `v` in a `BigUInt16Buf`.
pub fn big_uint16_buf_new(v: u16) -> (b: BigUInt16Buf)
    ensures
        b.raw == converted(v, Order::Native, Order::Big),
{
    BigUInt16Buf { raw: conversion::native_to_big(v) }
}

/// The native value held in `b`.
pub fn big_uint16_buf_get(b: BigUInt16Buf) -> (r: u16)
    ensures
        r == converted(b.raw, Order::Big, Order::Native),
{
    conversion::big_to_native(b.raw)
}

/// A unsigned 32-bit value shared with C++, `raw` holding it in
/// big-endian byte order.
#[derive(Debug, Clone, Copy, PartialEq, Eq, Structural)]
pub struct BigUInt32Buf {
    pub raw: u32,
}

/// Holds the native value `v` in a `BigUInt32Buf`.
pub fn big_uint32_buf_new(v: u32) -> (b: BigUInt32Buf)
    ensures
        b.raw == converted(v, Order::Native, Order::Big),
{
    BigUInt32Buf { raw: conversion::native_to_big(v) }
}

/// The native value held in `b`.
pub fn big_uint32_buf_get(b: BigUInt32Buf) -> (r: u32)
    ensures
        r == converted(b.raw, Order::Big, Order::Native),
{
    conversion::big_to_native(b.raw)
}

/// A unsigned 64-bit value shared with C++, `raw` holding it in
/// big-endian byte order.
#[derive(Debug, Clone, Copy, PartialEq, Eq, Structural)]
pub struct BigUInt64Buf {
    pub raw: u64,
}

/// Holds the native value `v` in a `BigUInt64Buf`.
pub fn big_uint64_buf_new(v: u64) -> (b: BigUInt64Buf)
    ensures
        b.raw == converted(v, Order::Native, Order::Big),
{
    BigUInt64Buf { raw: conversion::native_to_big(v) }
}

/// The native value held in `b`.
pub fn big_uint64_buf_get(b: BigUInt64Buf) -> (r: u64)
    ensures
        r == converted(b.raw, Order::Big, Order::Native),
{
    conversion::big_to_native(b.raw)
}

/// A signed 16-bit value shared with C++, `raw` holding it in
/// little-endian byte order.
#[derive(Debug, Clone, Copy, PartialEq, Eq, Structural)]
pub struct LittleInt16Buf {
    pub raw: i16,
}

/// Holds the native value `v` in a `LittleInt16Buf`.
pub fn little_int16_buf_new(v: i16) -> (b: LittleInt16Buf)
    ensures
        b.raw == converted(v, Order::Native, Order::Little),
{
    LittleInt16Buf { raw: conversion::native_to_little(v) }
}

/// The native value held in `b`.
pub fn little_int16_buf_get(b: LittleInt16Buf) -> (r: i16)
    ensures
        r == converted(b.raw, Order::Little, Order::Native),
{
    conversion::little_to_native(b.raw)
}

/// A signed 32-bit value shared with C++, `raw` holding it in
/// little-endian byte order.
#[derive(Debug, Clone, Copy, PartialEq, Eq, Structural)]
pub struct LittleInt32Buf {
    pub raw: i32,
}

/// Holds the native value `v` in a `LittleInt32Buf`.
pub fn little_int32_buf_new(v: i32) -> (b: LittleInt32Buf)
    ensures
        b.raw == converted(v, Order::Native, Order::Little),
{
    LittleInt32Buf { raw: conversion::native_to_little(v) }
}

/// The native value held in `b`.
pub fn little_int32_buf_get(b: LittleInt32Buf) -> (r: i32)
    ensures
        r == converted(b.raw, Order::Little, Order::Native),
{
    conversion::little_to_native(b.raw)
}

/// A signed 64-bit value shared with C++, `raw` holding it in
/// little-endian byte order.
#[derive(Debug, Clone, Copy, PartialEq, Eq, Structural)]
pub struct LittleInt64Buf {
    pub raw: i64,
}

/// Holds the native value `v` in a `LittleInt64Buf`.
pub fn little_int64_buf_new(v: i64) -> (b: LittleInt64Buf)
    ensures
        b.raw == converted(v, Order::Native, Order::Little),
{
    LittleInt64Buf { raw: conversion::native_to_little(v) }
}

/// The native value held in `b`.
pub fn little_int64_buf_get(b: LittleInt64Buf) -> (r: i64)
    ensures
        r == converted(b.raw, Order::Little, Order::Native),
{
    conversion::little_to_native(b.raw)
}

/// A unsigned 16-bit value shared with C++, `raw` holding it in
/// little-endian byte order.
#[derive(Debug, Clone, Copy, PartialEq, Eq, Structural)]
pub struct LittleUInt16Buf {
    pub raw: u16,
}

/// Holds the native value `v` in a `LittleUInt16Buf`.
pub fn little_uint16_buf_new(v: u16) -> (b: LittleUInt16Buf)
    ensures
        b.raw == converted(v, Order::Native, Order::Little),
{
    LittleUInt16Buf { raw: conversion::native_to_little(v) }
}

/// The native value held in `b`.
pub fn little_uint16_buf_get(b: LittleUInt16Buf) -> (r: u16)
    ensures
        r == converted(b.raw, Order::Little, Order::Native),
{
    conversion::little_to_native(b.raw)
}

/// A unsigned 32-bit value shared with C++, `raw` holding it in
/// little-endian byte order.
#[derive(Debug, Clone, Copy, PartialEq, Eq, Structural)]
pub struct LittleUInt32Buf {
    pub raw: u32,
}

/// Holds the native value `v` in a `LittleUInt32Buf`.
pub fn little_uint32_buf_new(v: u32) -> (b: LittleUInt32Buf)
    ensures
        b.raw == converted(v, Order::Native, Order::Little),
{
    LittleUInt32Buf { raw: conversion::native_to_little(v) }
}

/// The native value held in `b`.
pub fn little_uint32_buf_get(b: LittleUInt32Buf) -> (r: u32)
    ensures
        r == converted(b.raw, Order::Little, Order::Native),
{
    conversion::little_to_native(b.raw)
}

/// A unsigned 64-bit value shared with C++, `raw` holding it in
/// little-endian byte order.
#[derive(Debug, Clone, Copy, PartialEq, Eq, Structural)]
pub struct LittleUInt64Buf {
    pub raw: u64,
}

/// Holds the native value `v` in a `LittleUInt64Buf`.
pub fn little_uint64_buf_new(v: u64) -> (b: LittleUInt64Buf)
    ensures
        b.raw == converted(v, Order::Native, Order::Little),
{
    LittleUInt64Buf { raw: conversion::native_to_little(v) }
}

/// The native value held in `b`.
pub fn little_uint64_buf_get(b: LittleUInt64Buf) -> (r: u64)
    ensures
        r == converted(b.raw, Order::Little, Order::Native),
{
    conversion::little_to_native(b.raw)
}

} // verus!
