//! Byte sequences read as base-256 numbers.
use vstd::prelude::*;

use crate::conversion::{from_be_seq, EndianReversible};

verus! {

/// The number whose base-256 digits, least significant first, are `b`.
pub open spec fn le_to_nat(b: Seq<u8>) -> nat
    decreases b.len(),
{
    if b.len() == 0 {
        0
    } else {
        b[0] as nat + 256 * le_to_nat(b.drop_first())
    }
}

/// The number whose base-256 digits, most significant first, are `b`.
pub open spec fn be_to_nat(b: Seq<u8>) -> nat {
    le_to_nat(b.reverse())
}

/// The two's-complement pattern of `v` on `bits` bits, as a number.
pub open spec fn twos_complement(v: int, bits: nat) -> nat {
    if v >= 0 {
        v as nat
    } else {
        (v + vstd::arithmetic::power2::pow2(bits)) as nat
    }
}

/// The bytes of a `u16` are the base-256 digits of its value.
pub proof fn lemma_u16_digits(x: u16)
    ensures
        le_to_nat(x.to_le_seq()) == x,
{
    reveal_with_fuel(le_to_nat, 3);
    assert((x as u8) + 256 * (((x >> 8) as u8)) == x) by (bit_vector);
}

/// The bytes of a `u32` are the base-256 digits of its value.
pub proof fn lemma_u32_digits(x: u32)
    ensures
        le_to_nat(x.to_le_seq()) == x,
{
    reveal_with_fuel(le_to_nat, 5);
    assert((x as u8) + 256 * (((x >> 8) as u8) + 256 * (((x >> 16) as u8) + 256 * (((x >> 24) as u8)))) == x) by (bit_vector);
}

/// The bytes of a `u64` are the base-256 digits of its value.
pub proof fn lemma_u64_digits(x: u64)
    ensures
        le_to_nat(x.to_le_seq()) == x,
{
    reveal_with_fuel(le_to_nat, 9);
    assert((x as u8) + 256 * (((x >> 8) as u8) + 256 * (((x >> 16) as u8) + 256 * (((x >> 24) as u8) + 256 * (((x >> 32) as u8) + 256 * (((x >> 40) as u8) + 256 * (((x >> 48) as u8) + 256 * (((x >> 56) as u8)))))))) == x) by (bit_vector);
}

/// The bytes of an `i16` are the base-256 digits of its two's-complement pattern.
pub proof fn lemma_i16_digits(x: i16)
    ensures
        le_to_nat(x.to_le_seq()) == twos_complement(x as int, 16),
{
    let u = x as u16;
    lemma_u16_digits(u);
    vstd::arithmetic::power2::lemma2_to64();
    vstd::arithmetic::power2::lemma2_to64_rest();
    assert(u == (if x >= 0 { x as int } else { x + 0x10000 })) by (bit_vector)
        requires
            u == x as u16;
}

/// The bytes of an `i32` are the base-256 digits of its two's-complement pattern.
pub proof fn lemma_i32_digits(x: i32)
    ensures
        le_to_nat(x.to_le_seq()) == twos_complement(x as int, 32),
{
    let u = x as u32;
    lemma_u32_digits(u);
    vstd::arithmetic::power2::lemma2_to64();
    vstd::arithmetic::power2::lemma2_to64_rest();
    assert(u == (if x >= 0 { x as int } else { x + 0x100000000 })) by (bit_vector)
        requires
            u == x as u32;
}

/// The bytes of an `i64` are the base-256 digits of its two's-complement pattern.
pub proof fn lemma_i64_digits(x: i64)
    ensures
        le_to_nat(x.to_le_seq()) == twos_complement(x as int, 64),
{
    let u = x as u64;
    lemma_u64_digits(u);
    vstd::arithmetic::power2::lemma2_to64();
    vstd::arithmetic::power2::lemma2_to64_rest();
    assert(u == (if x >= 0 { x as int } else { x + 0x10000000000000000 })) by (bit_vector)
        requires
            u == x as u64;
}

/// Reading 2 bytes as a `u16` gives the number they are the base-256 digits of,
/// least significant first for little-endian and most significant first for big-endian.
pub proof fn lemma_u16_read_value(b: Seq<u8>)
    requires
        b.len() == 2,
    ensures
        <u16 as EndianReversible>::from_le_seq(b) == le_to_nat(b),
        from_be_seq::<u16>(b) == be_to_nat(b),
{
    <u16 as EndianReversible>::lemma_from_le_seq_roundtrip(b);
    lemma_u16_digits(<u16 as EndianReversible>::from_le_seq(b));
    <u16 as EndianReversible>::lemma_from_le_seq_roundtrip(b.reverse());
    lemma_u16_digits(<u16 as EndianReversible>::from_le_seq(b.reverse()));
}

/// Reading 4 bytes as a `u32` gives the number they are the base-256 digits of,
/// least significant first for little-endian and most significant first for big-endian.
pub proof fn lemma_u32_read_value(b: Seq<u8>)
    requires
        b.len() == 4,
    ensures
        <u32 as EndianReversible>::from_le_seq(b) == le_to_nat(b),
        from_be_seq::<u32>(b) == be_to_nat(b),
{
    <u32 as EndianReversible>::lemma_from_le_seq_roundtrip(b);
    lemma_u32_digits(<u32 as EndianReversible>::from_le_seq(b));
    <u32 as EndianReversible>::lemma_from_le_seq_roundtrip(b.reverse());
    lemma_u32_digits(<u32 as EndianReversible>::from_le_seq(b.reverse()));
}

/// Reading 8 bytes as a `u64` gives the number they are the base-256 digits of,
/// least significant first for little-endian and most significant first for big-endian.
pub proof fn lemma_u64_read_value(b: Seq<u8>)
    requires
        b.len() == 8,
    ensures
        <u64 as EndianReversible>::from_le_seq(b) == le_to_nat(b),
        from_be_seq::<u64>(b) == be_to_nat(b),
{
    <u64 as EndianReversible>::lemma_from_le_seq_roundtrip(b);
    lemma_u64_digits(<u64 as EndianReversible>::from_le_seq(b));
    <u64 as EndianReversible>::lemma_from_le_seq_roundtrip(b.reverse());
    lemma_u64_digits(<u64 as EndianReversible>::from_le_seq(b.reverse()));
}

/// Bytes that are all zero read as the number 0.
pub proof fn lemma_zero_bytes(b: Seq<u8>)
    requires
        forall|i: int| 0 <= i < b.len() ==> #[trigger] b[i] == 0,
    ensures
        le_to_nat(b) == 0,
    decreases b.len(),
{
    if b.len() > 0 {
        lemma_zero_bytes(b.drop_first());
    }
}

/// For every reversible type, the step `one()` that `inc` and `dec` take is
/// the number 1: its bytes read as base-256 digits give 1.
pub proof fn lemma_one_reads_as_one<T: EndianReversible>()
    ensures
        le_to_nat(T::spec_one().to_le_seq()) == 1,
        be_to_nat(T::spec_one().to_le_seq().reverse()) == 1,
{
    T::lemma_one_le_seq();
    let b = T::spec_one().to_le_seq();
    assert forall|i: int| 0 <= i < b.drop_first().len() implies #[trigger] b.drop_first()[i] == 0 by {
        assert(b.drop_first()[i] == b[i + 1]);
    }
    lemma_zero_bytes(b.drop_first());
    assert(b.reverse().reverse() =~= b);
}

} // verus!
