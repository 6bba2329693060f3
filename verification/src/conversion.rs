//! Endian conversion on plain integer values.
use vstd::prelude::*;
use vstd::endian::{endianness, Endian};

verus! {

/// Byte ordering of a stored integer.
#[derive(Debug, Clone, Copy, PartialEq, Eq, Structural)]
pub enum Order {
    Big,
    Little,
    /// Stands for `Big` or `Little`, whichever the target uses.
    Native,
}

/// The byte order of the machine the code runs on.
pub open spec fn spec_native_order() -> Order {
    match endianness() {
        Endian::Little => Order::Little,
        Endian::Big => Order::Big,
    }
}

/// `Native` stands for the machine's order; `Big` and `Little` for themselves.
pub open spec fn resolved(o: Order) -> Order {
    if o == Order::Native {
        spec_native_order()
    } else {
        o
    }
}

/// `u16::from_ne_bytes`: the `u16` whose bytes in the machine's own byte
/// order are `bytes`, that is, read little-endian on a little-endian machine
/// and big-endian on a big-endian one.
#[verifier::external_body]
fn u16_from_ne_bytes(bytes: [u8; 2]) -> (r: u16)
    ensures
        r == (match endianness() {
            Endian::Little => <u16 as EndianReversible>::from_le_seq(bytes@),
            Endian::Big => <u16 as EndianReversible>::from_le_seq(bytes@.reverse()),
        }),
{
    u16::from_ne_bytes(bytes)
}

/// The byte order of the machine the code runs on: `Big` or `Little`.
pub fn native_order() -> (o: Order)
    ensures
        o == spec_native_order(),
{
    let probe = u16_from_ne_bytes([1u8, 0u8]);
    proof {
        let b = [1u8, 0u8]@;
        assert(b =~= seq![1u8, 0u8]);
        assert(b.reverse() =~= seq![0u8, 1u8]);
        assert(((1u8 as u16) | ((0u8 as u16) << 8)) == 1u16) by (bit_vector);
        assert(((0u8 as u16) | ((1u8 as u16) << 8)) == 256u16) by (bit_vector);
    }
    if probe == 1 {
        Order::Little
    } else {
        Order::Big
    }
}

fn resolve(o: Order) -> (r: Order)
    ensures
        r == resolved(o),
{
    if o == Order::Native {
        native_order()
    } else {
        o
    }
}

/// A type whose bytes can be reversed to change endianness.
pub trait EndianReversible: Sized + Copy {
    /// The bytes of the value, least significant first.
    spec fn to_le_seq(self) -> Seq<u8>;

    /// The value whose bytes, least significant first, are `b`.
    spec fn from_le_seq(b: Seq<u8>) -> Self;

    /// The number of bytes of the type.
    spec fn byte_width() -> nat;

    /// A value has `byte_width()` bytes, and is the value of its bytes.
    proof fn lemma_le_seq_roundtrip(x: Self)
        ensures
            x.to_le_seq().len() == Self::byte_width(),
            Self::from_le_seq(x.to_le_seq()) == x,
    ;

    /// Any `byte_width()` bytes are the bytes of some value.
    proof fn lemma_from_le_seq_roundtrip(b: Seq<u8>)
        requires
            b.len() == Self::byte_width(),
        ensures
            Self::from_le_seq(b).to_le_seq() == b,
    ;

    /// Returns the value with its bytes in the reverse order.
    fn endian_reverse(self) -> (r: Self)
        ensures
            r == Self::from_le_seq(self.to_le_seq().reverse()),
    ;

    /// The value one, the step of an increment or decrement.
    spec fn spec_one() -> Self;

    /// Returns the value one.
    fn one() -> (r: Self)
        ensures
            r == Self::spec_one(),
    ;

    /// One is the value whose least significant byte is 1 and whose other
    /// bytes are 0.
    proof fn lemma_one_le_seq()
        ensures
            Self::byte_width() >= 1,
            Self::spec_one().to_le_seq().len() == Self::byte_width(),
            Self::spec_one().to_le_seq()[0] == 1,
            forall|i: int|
                1 <= i < Self::byte_width() ==> #[trigger] Self::spec_one().to_le_seq()[i] == 0,
    ;
}

impl EndianReversible for u8 {
    open spec fn to_le_seq(self) -> Seq<u8> {
        seq![self]
    }

    open spec fn from_le_seq(b: Seq<u8>) -> u8 {
        b[0]
    }

    open spec fn byte_width() -> nat {
        1
    }

    proof fn lemma_le_seq_roundtrip(x: u8) {
    }

    proof fn lemma_from_le_seq_roundtrip(b: Seq<u8>) {
        assert(b[0].to_le_seq() =~= b);
    }

    open spec fn spec_one() -> u8 {
        1
    }

    fn one() -> (r: u8) {
        1
    }

    proof fn lemma_one_le_seq() {
    }

    fn endian_reverse(self) -> (r: u8) {
        proof {
            assert(self.to_le_seq().reverse() =~= self.to_le_seq());
        }
        self
    }
}

impl EndianReversible for u16 {
    open spec fn to_le_seq(self) -> Seq<u8> {
        seq![
            self as u8,
            (self >> 8) as u8,
        ]
    }

    open spec fn from_le_seq(b: Seq<u8>) -> u16 {
        (b[0] as u16)
            | ((b[1] as u16) << 8)
    }

    open spec fn byte_width() -> nat {
        2
    }

    proof fn lemma_le_seq_roundtrip(x: u16) {
        assert(x == ((x as u8) as u16)
            | ((((x >> 8) as u8) as u16) << 8)) by (bit_vector);
    }

    proof fn lemma_from_le_seq_roundtrip(b: Seq<u8>) {
        let b0 = b[0];
        let b1 = b[1];
        let v = (b0 as u16)
            | ((b1 as u16) << 8);
        assert(v as u8 == b0
            && (v >> 8) as u8 == b1) by (bit_vector)
            requires
                v == (b0 as u16)
                    | ((b1 as u16) << 8),
        ;
        assert(v.to_le_seq() =~= b);
    }

    open spec fn spec_one() -> u16 {
        1
    }

    fn one() -> (r: u16) {
        1
    }

    proof fn lemma_one_le_seq() {
        assert(1u16 as u8 == 1 && (1u16 >> 8) as u8 == 0) by (bit_vector);
    }

    fn endian_reverse(self) -> (r: u16) {
        let x = self;
        let r = ((x & 0xff) << 8)
            | ((x >> 8) & 0xff);
        proof {
            assert(x.to_le_seq().reverse() =~= seq![(x >> 8) as u8, x as u8]);
            assert(r == (((x >> 8) as u8) as u16)
                | (((x as u8) as u16) << 8)) by (bit_vector)
                requires
                    r == ((x & 0xff) << 8)
                        | ((x >> 8) & 0xff),
            ;
        }
        r
    }
}

impl EndianReversible for u32 {
    open spec fn to_le_seq(self) -> Seq<u8> {
        seq![
            self as u8,
            (self >> 8) as u8,
            (self >> 16) as u8,
            (self >> 24) as u8,
        ]
    }

    open spec fn from_le_seq(b: Seq<u8>) -> u32 {
        (b[0] as u32)
            | ((b[1] as u32) << 8)
            | ((b[2] as u32) << 16)
            | ((b[3] as u32) << 24)
    }

    open spec fn byte_width() -> nat {
        4
    }

    proof fn lemma_le_seq_roundtrip(x: u32) {
        assert(x == ((x as u8) as u32)
            | ((((x >> 8) as u8) as u32) << 8)
            | ((((x >> 16) as u8) as u32) << 16)
            | ((((x >> 24) as u8) as u32) << 24)) by (bit_vector);
    }

    proof fn lemma_from_le_seq_roundtrip(b: Seq<u8>) {
        let b0 = b[0];
        let b1 = b[1];
        let b2 = b[2];
        let b3 = b[3];
        let v = (b0 as u32)
            | ((b1 as u32) << 8)
            | ((b2 as u32) << 16)
            | ((b3 as u32) << 24);
        assert(v as u8 == b0
            && (v >> 8) as u8 == b1
            && (v >> 16) as u8 == b2
            && (v >> 24) as u8 == b3) by (bit_vector)
            requires
                v == (b0 as u32)
                    | ((b1 as u32) << 8)
                    | ((b2 as u32) << 16)
                    | ((b3 as u32) << 24),
        ;
        assert(v.to_le_seq() =~= b);
    }

    open spec fn spec_one() -> u32 {
        1
    }

    fn one() -> (r: u32) {
        1
    }

    proof fn lemma_one_le_seq() {
        assert(1u32 as u8 == 1 && (1u32 >> 8) as u8 == 0 && (1u32 >> 16) as u8 == 0 && (1u32 >> 24) as u8 == 0) by (bit_vector);
    }

    fn endian_reverse(self) -> (r: u32) {
        let x = self;
        let r = ((x & 0xff) << 24)
            | (((x >> 8) & 0xff) << 16)
            | (((x >> 16) & 0xff) << 8)
            | ((x >> 24) & 0xff);
        proof {
            assert(x.to_le_seq().reverse() =~= seq![(x >> 24) as u8, (x >> 16) as u8, (x >> 8) as u8, x as u8]);
            assert(r == (((x >> 24) as u8) as u32)
                | ((((x >> 16) as u8) as u32) << 8)
                | ((((x >> 8) as u8) as u32) << 16)
                | (((x as u8) as u32) << 24)) by (bit_vector)
                requires
                    r == ((x & 0xff) << 24)
                        | (((x >> 8) & 0xff) << 16)
                        | (((x >> 16) & 0xff) << 8)
                        | ((x >> 24) & 0xff),
            ;
        }
        r
    }
}

impl EndianReversible for u64 {
    open spec fn to_le_seq(self) -> Seq<u8> {
        seq![
            self as u8,
            (self >> 8) as u8,
            (self >> 16) as u8,
            (self >> 24) as u8,
            (self >> 32) as u8,
            (self >> 40) as u8,
            (self >> 48) as u8,
            (self >> 56) as u8,
        ]
    }

    open spec fn from_le_seq(b: Seq<u8>) -> u64 {
        (b[0] as u64)
            | ((b[1] as u64) << 8)
            | ((b[2] as u64) << 16)
            | ((b[3] as u64) << 24)
            | ((b[4] as u64) << 32)
            | ((b[5] as u64) << 40)
            | ((b[6] as u64) << 48)
            | ((b[7] as u64) << 56)
    }

    open spec fn byte_width() -> nat {
        8
    }

    proof fn lemma_le_seq_roundtrip(x: u64) {
        assert(x == ((x as u8) as u64)
            | ((((x >> 8) as u8) as u64) << 8)
            | ((((x >> 16) as u8) as u64) << 16)
            | ((((x >> 24) as u8) as u64) << 24)
            | ((((x >> 32) as u8) as u64) << 32)
            | ((((x >> 40) as u8) as u64) << 40)
            | ((((x >> 48) as u8) as u64) << 48)
            | ((((x >> 56) as u8) as u64) << 56)) by (bit_vector);
    }

    proof fn lemma_from_le_seq_roundtrip(b: Seq<u8>) {
        let b0 = b[0];
        let b1 = b[1];
        let b2 = b[2];
        let b3 = b[3];
        let b4 = b[4];
        let b5 = b[5];
        let b6 = b[6];
        let b7 = b[7];
        let v = (b0 as u64)
            | ((b1 as u64) << 8)
            | ((b2 as u64) << 16)
            | ((b3 as u64) << 24)
            | ((b4 as u64) << 32)
            | ((b5 as u64) << 40)
            | ((b6 as u64) << 48)
            | ((b7 as u64) << 56);
        assert(v as u8 == b0
            && (v >> 8) as u8 == b1
            && (v >> 16) as u8 == b2
            && (v >> 24) as u8 == b3
            && (v >> 32) as u8 == b4
            && (v >> 40) as u8 == b5
            && (v >> 48) as u8 == b6
            && (v >> 56) as u8 == b7) by (bit_vector)
            requires
                v == (b0 as u64)
                    | ((b1 as u64) << 8)
                    | ((b2 as u64) << 16)
                    | ((b3 as u64) << 24)
                    | ((b4 as u64) << 32)
                    | ((b5 as u64) << 40)
                    | ((b6 as u64) << 48)
                    | ((b7 as u64) << 56),
        ;
        assert(v.to_le_seq() =~= b);
    }

    open spec fn spec_one() -> u64 {
        1
    }

    fn one() -> (r: u64) {
        1
    }

    proof fn lemma_one_le_seq() {
        assert(1u64 as u8 == 1 && (1u64 >> 8) as u8 == 0 && (1u64 >> 16) as u8 == 0 && (1u64 >> 24) as u8 == 0 && (1u64 >> 32) as u8 == 0 && (1u64 >> 40) as u8 == 0 && (1u64 >> 48) as u8 == 0 && (1u64 >> 56) as u8 == 0) by (bit_vector);
    }

    fn endian_reverse(self) -> (r: u64) {
        let x = self;
        let r = ((x & 0xff) << 56)
            | (((x >> 8) & 0xff) << 48)
            | (((x >> 16) & 0xff) << 40)
            | (((x >> 24) & 0xff) << 32)
            | (((x >> 32) & 0xff) << 24)
            | (((x >> 40) & 0xff) << 16)
            | (((x >> 48) & 0xff) << 8)
            | ((x >> 56) & 0xff);
        proof {
            assert(x.to_le_seq().reverse() =~= seq![(x >> 56) as u8, (x >> 48) as u8, (x >> 40) as u8, (x >> 32) as u8, (x >> 24) as u8, (x >> 16) as u8, (x >> 8) as u8, x as u8]);
            assert(r == (((x >> 56) as u8) as u64)
                | ((((x >> 48) as u8) as u64) << 8)
                | ((((x >> 40) as u8) as u64) << 16)
                | ((((x >> 32) as u8) as u64) << 24)
                | ((((x >> 24) as u8) as u64) << 32)
                | ((((x >> 16) as u8) as u64) << 40)
                | ((((x >> 8) as u8) as u64) << 48)
                | (((x as u8) as u64) << 56)) by (bit_vector)
                requires
                    r == ((x & 0xff) << 56)
                        | (((x >> 8) & 0xff) << 48)
                        | (((x >> 16) & 0xff) << 40)
                        | (((x >> 24) & 0xff) << 32)
                        | (((x >> 32) & 0xff) << 24)
                        | (((x >> 40) & 0xff) << 16)
                        | (((x >> 48) & 0xff) << 8)
                        | ((x >> 56) & 0xff),
            ;
        }
        r
    }
}

impl EndianReversible for u128 {
    open spec fn to_le_seq(self) -> Seq<u8> {
        seq![
            self as u8,
            (self >> 8) as u8,
            (self >> 16) as u8,
            (self >> 24) as u8,
            (self >> 32) as u8,
            (self >> 40) as u8,
            (self >> 48) as u8,
            (self >> 56) as u8,
            (self >> 64) as u8,
            (self >> 72) as u8,
            (self >> 80) as u8,
            (self >> 88) as u8,
            (self >> 96) as u8,
            (self >> 104) as u8,
            (self >> 112) as u8,
            (self >> 120) as u8,
        ]
    }

    open spec fn from_le_seq(b: Seq<u8>) -> u128 {
        (b[0] as u128)
            | ((b[1] as u128) << 8)
            | ((b[2] as u128) << 16)
            | ((b[3] as u128) << 24)
            | ((b[4] as u128) << 32)
            | ((b[5] as u128) << 40)
            | ((b[6] as u128) << 48)
            | ((b[7] as u128) << 56)
            | ((b[8] as u128) << 64)
            | ((b[9] as u128) << 72)
            | ((b[10] as u128) << 80)
            | ((b[11] as u128) << 88)
            | ((b[12] as u128) << 96)
            | ((b[13] as u128) << 104)
            | ((b[14] as u128) << 112)
            | ((b[15] as u128) << 120)
    }

    open spec fn byte_width() -> nat {
        16
    }

    proof fn lemma_le_seq_roundtrip(x: u128) {
        assert(x == ((x as u8) as u128)
            | ((((x >> 8) as u8) as u128) << 8)
            | ((((x >> 16) as u8) as u128) << 16)
            | ((((x >> 24) as u8) as u128) << 24)
            | ((((x >> 32) as u8) as u128) << 32)
            | ((((x >> 40) as u8) as u128) << 40)
            | ((((x >> 48) as u8) as u128) << 48)
            | ((((x >> 56) as u8) as u128) << 56)
            | ((((x >> 64) as u8) as u128) << 64)
            | ((((x >> 72) as u8) as u128) << 72)
            | ((((x >> 80) as u8) as u128) << 80)
            | ((((x >> 88) as u8) as u128) << 88)
            | ((((x >> 96) as u8) as u128) << 96)
            | ((((x >> 104) as u8) as u128) << 104)
            | ((((x >> 112) as u8) as u128) << 112)
            | ((((x >> 120) as u8) as u128) << 120)) by (bit_vector);
    }

    proof fn lemma_from_le_seq_roundtrip(b: Seq<u8>) {
        let b0 = b[0];
        let b1 = b[1];
        let b2 = b[2];
        let b3 = b[3];
        let b4 = b[4];
        let b5 = b[5];
        let b6 = b[6];
        let b7 = b[7];
        let b8 = b[8];
        let b9 = b[9];
        let b10 = b[10];
        let b11 = b[11];
        let b12 = b[12];
        let b13 = b[13];
        let b14 = b[14];
        let b15 = b[15];
        let v = (b0 as u128)
            | ((b1 as u128) << 8)
            | ((b2 as u128) << 16)
            | ((b3 as u128) << 24)
            | ((b4 as u128) << 32)
            | ((b5 as u128) << 40)
            | ((b6 as u128) << 48)
            | ((b7 as u128) << 56)
            | ((b8 as u128) << 64)
            | ((b9 as u128) << 72)
            | ((b10 as u128) << 80)
            | ((b11 as u128) << 88)
            | ((b12 as u128) << 96)
            | ((b13 as u128) << 104)
            | ((b14 as u128) << 112)
            | ((b15 as u128) << 120);
        assert(v as u8 == b0
            && (v >> 8) as u8 == b1
            && (v >> 16) as u8 == b2
            && (v >> 24) as u8 == b3
            && (v >> 32) as u8 == b4
            && (v >> 40) as u8 == b5
            && (v >> 48) as u8 == b6
            && (v >> 56) as u8 == b7
            && (v >> 64) as u8 == b8
            && (v >> 72) as u8 == b9
            && (v >> 80) as u8 == b10
            && (v >> 88) as u8 == b11
            && (v >> 96) as u8 == b12
            && (v >> 104) as u8 == b13
            && (v >> 112) as u8 == b14
            && (v >> 120) as u8 == b15) by (bit_vector)
            requires
                v == (b0 as u128)
                    | ((b1 as u128) << 8)
                    | ((b2 as u128) << 16)
                    | ((b3 as u128) << 24)
                    | ((b4 as u128) << 32)
                    | ((b5 as u128) << 40)
                    | ((b6 as u128) << 48)
                    | ((b7 as u128) << 56)
                    | ((b8 as u128) << 64)
                    | ((b9 as u128) << 72)
                    | ((b10 as u128) << 80)
                    | ((b11 as u128) << 88)
                    | ((b12 as u128) << 96)
                    | ((b13 as u128) << 104)
                    | ((b14 as u128) << 112)
                    | ((b15 as u128) << 120),
        ;
        assert(v.to_le_seq() =~= b);
    }

    open spec fn spec_one() -> u128 {
        1
    }

    fn one() -> (r: u128) {
        1
    }

    proof fn lemma_one_le_seq() {
        assert(1u128 as u8 == 1 && (1u128 >> 8) as u8 == 0 && (1u128 >> 16) as u8 == 0 && (1u128 >> 24) as u8 == 0 && (1u128 >> 32) as u8 == 0 && (1u128 >> 40) as u8 == 0 && (1u128 >> 48) as u8 == 0 && (1u128 >> 56) as u8 == 0 && (1u128 >> 64) as u8 == 0 && (1u128 >> 72) as u8 == 0 && (1u128 >> 80) as u8 == 0 && (1u128 >> 88) as u8 == 0 && (1u128 >> 96) as u8 == 0 && (1u128 >> 104) as u8 == 0 && (1u128 >> 112) as u8 == 0 && (1u128 >> 120) as u8 == 0) by (bit_vector);
    }

    fn endian_reverse(self) -> (r: u128) {
        let x = self;
        let r = ((x & 0xff) << 120)
            | (((x >> 8) & 0xff) << 112)
            | (((x >> 16) & 0xff) << 104)
            | (((x >> 24) & 0xff) << 96)
            | (((x >> 32) & 0xff) << 88)
            | (((x >> 40) & 0xff) << 80)
            | (((x >> 48) & 0xff) << 72)
            | (((x >> 56) & 0xff) << 64)
            | (((x >> 64) & 0xff) << 56)
            | (((x >> 72) & 0xff) << 48)
            | (((x >> 80) & 0xff) << 40)
            | (((x >> 88) & 0xff) << 32)
            | (((x >> 96) & 0xff) << 24)
            | (((x >> 104) & 0xff) << 16)
            | (((x >> 112) & 0xff) << 8)
            | ((x >> 120) & 0xff);
        proof {
            assert(x.to_le_seq().reverse() =~= seq![(x >> 120) as u8, (x >> 112) as u8, (x >> 104) as u8, (x >> 96) as u8, (x >> 88) as u8, (x >> 80) as u8, (x >> 72) as u8, (x >> 64) as u8, (x >> 56) as u8, (x >> 48) as u8, (x >> 40) as u8, (x >> 32) as u8, (x >> 24) as u8, (x >> 16) as u8, (x >> 8) as u8, x as u8]);
            assert(r == (((x >> 120) as u8) as u128)
                | ((((x >> 112) as u8) as u128) << 8)
                | ((((x >> 104) as u8) as u128) << 16)
                | ((((x >> 96) as u8) as u128) << 24)
                | ((((x >> 88) as u8) as u128) << 32)
                | ((((x >> 80) as u8) as u128) << 40)
                | ((((x >> 72) as u8) as u128) << 48)
                | ((((x >> 64) as u8) as u128) << 56)
                | ((((x >> 56) as u8) as u128) << 64)
                | ((((x >> 48) as u8) as u128) << 72)
                | ((((x >> 40) as u8) as u128) << 80)
                | ((((x >> 32) as u8) as u128) << 88)
                | ((((x >> 24) as u8) as u128) << 96)
                | ((((x >> 16) as u8) as u128) << 104)
                | ((((x >> 8) as u8) as u128) << 112)
                | (((x as u8) as u128) << 120)) by (bit_vector)
                requires
                    r == ((x & 0xff) << 120)
                        | (((x >> 8) & 0xff) << 112)
                        | (((x >> 16) & 0xff) << 104)
                        | (((x >> 24) & 0xff) << 96)
                        | (((x >> 32) & 0xff) << 88)
                        | (((x >> 40) & 0xff) << 80)
                        | (((x >> 48) & 0xff) << 72)
                        | (((x >> 56) & 0xff) << 64)
                        | (((x >> 64) & 0xff) << 56)
                        | (((x >> 72) & 0xff) << 48)
                        | (((x >> 80) & 0xff) << 40)
                        | (((x >> 88) & 0xff) << 32)
                        | (((x >> 96) & 0xff) << 24)
                        | (((x >> 104) & 0xff) << 16)
                        | (((x >> 112) & 0xff) << 8)
                        | ((x >> 120) & 0xff),
            ;
        }
        r
    }
}

impl EndianReversible for i8 {
    open spec fn to_le_seq(self) -> Seq<u8> {
        (self as u8).to_le_seq()
    }

    open spec fn from_le_seq(b: Seq<u8>) -> i8 {
        <u8 as EndianReversible>::from_le_seq(b) as i8
    }

    open spec fn byte_width() -> nat {
        1
    }

    proof fn lemma_le_seq_roundtrip(x: i8) {
        <u8 as EndianReversible>::lemma_le_seq_roundtrip(x as u8);
        assert((x as u8) as i8 == x) by (bit_vector);
    }

    proof fn lemma_from_le_seq_roundtrip(b: Seq<u8>) {
        <u8 as EndianReversible>::lemma_from_le_seq_roundtrip(b);
        let v = <u8 as EndianReversible>::from_le_seq(b);
        assert((v as i8) as u8 == v) by (bit_vector);
    }

    open spec fn spec_one() -> i8 {
        1
    }

    fn one() -> (r: i8) {
        1
    }

    proof fn lemma_one_le_seq() {
        <u8 as EndianReversible>::lemma_one_le_seq();
    }

    fn endian_reverse(self) -> (r: i8) {
        (self as u8).endian_reverse() as i8
    }
}

impl EndianReversible for i16 {
    open spec fn to_le_seq(self) -> Seq<u8> {
        (self as u16).to_le_seq()
    }

    open spec fn from_le_seq(b: Seq<u8>) -> i16 {
        <u16 as EndianReversible>::from_le_seq(b) as i16
    }

    open spec fn byte_width() -> nat {
        2
    }

    proof fn lemma_le_seq_roundtrip(x: i16) {
        <u16 as EndianReversible>::lemma_le_seq_roundtrip(x as u16);
        assert((x as u16) as i16 == x) by (bit_vector);
    }

    proof fn lemma_from_le_seq_roundtrip(b: Seq<u8>) {
        <u16 as EndianReversible>::lemma_from_le_seq_roundtrip(b);
        let v = <u16 as EndianReversible>::from_le_seq(b);
        assert((v as i16) as u16 == v) by (bit_vector);
    }

    open spec fn spec_one() -> i16 {
        1
    }

    fn one() -> (r: i16) {
        1
    }

    proof fn lemma_one_le_seq() {
        <u16 as EndianReversible>::lemma_one_le_seq();
    }

    fn endian_reverse(self) -> (r: i16) {
        (self as u16).endian_reverse() as i16
    }
}

impl EndianReversible for i32 {
    open spec fn to_le_seq(self) -> Seq<u8> {
        (self as u32).to_le_seq()
    }

    open spec fn from_le_seq(b: Seq<u8>) -> i32 {
        <u32 as EndianReversible>::from_le_seq(b) as i32
    }

    open spec fn byte_width() -> nat {
        4
    }

    proof fn lemma_le_seq_roundtrip(x: i32) {
        <u32 as EndianReversible>::lemma_le_seq_roundtrip(x as u32);
        assert((x as u32) as i32 == x) by (bit_vector);
    }

    proof fn lemma_from_le_seq_roundtrip(b: Seq<u8>) {
        <u32 as EndianReversible>::lemma_from_le_seq_roundtrip(b);
        let v = <u32 as EndianReversible>::from_le_seq(b);
        assert((v as i32) as u32 == v) by (bit_vector);
    }

    open spec fn spec_one() -> i32 {
        1
    }

    fn one() -> (r: i32) {
        1
    }

    proof fn lemma_one_le_seq() {
        <u32 as EndianReversible>::lemma_one_le_seq();
    }

    fn endian_reverse(self) -> (r: i32) {
        (self as u32).endian_reverse() as i32
    }
}

impl EndianReversible for i64 {
    open spec fn to_le_seq(self) -> Seq<u8> {
        (self as u64).to_le_seq()
    }

    open spec fn from_le_seq(b: Seq<u8>) -> i64 {
        <u64 as EndianReversible>::from_le_seq(b) as i64
    }

    open spec fn byte_width() -> nat {
        8
    }

    proof fn lemma_le_seq_roundtrip(x: i64) {
        <u64 as EndianReversible>::lemma_le_seq_roundtrip(x as u64);
        assert((x as u64) as i64 == x) by (bit_vector);
    }

    proof fn lemma_from_le_seq_roundtrip(b: Seq<u8>) {
        <u64 as EndianReversible>::lemma_from_le_seq_roundtrip(b);
        let v = <u64 as EndianReversible>::from_le_seq(b);
        assert((v as i64) as u64 == v) by (bit_vector);
    }

    open spec fn spec_one() -> i64 {
        1
    }

    fn one() -> (r: i64) {
        1
    }

    proof fn lemma_one_le_seq() {
        <u64 as EndianReversible>::lemma_one_le_seq();
    }

    fn endian_reverse(self) -> (r: i64) {
        (self as u64).endian_reverse() as i64
    }
}

impl EndianReversible for i128 {
    open spec fn to_le_seq(self) -> Seq<u8> {
        (self as u128).to_le_seq()
    }

    open spec fn from_le_seq(b: Seq<u8>) -> i128 {
        <u128 as EndianReversible>::from_le_seq(b) as i128
    }

    open spec fn byte_width() -> nat {
        16
    }

    proof fn lemma_le_seq_roundtrip(x: i128) {
        <u128 as EndianReversible>::lemma_le_seq_roundtrip(x as u128);
        assert((x as u128) as i128 == x) by (bit_vector);
    }

    proof fn lemma_from_le_seq_roundtrip(b: Seq<u8>) {
        <u128 as EndianReversible>::lemma_from_le_seq_roundtrip(b);
        let v = <u128 as EndianReversible>::from_le_seq(b);
        assert((v as i128) as u128 == v) by (bit_vector);
    }

    open spec fn spec_one() -> i128 {
        1
    }

    fn one() -> (r: i128) {
        1
    }

    proof fn lemma_one_le_seq() {
        <u128 as EndianReversible>::lemma_one_le_seq();
    }

    fn endian_reverse(self) -> (r: i128) {
        (self as u128).endian_reverse() as i128
    }
}

impl EndianReversible for usize {
    open spec fn to_le_seq(self) -> Seq<u8> {
        if usize::BITS == 64 {
            (self as u64).to_le_seq()
        } else {
            (self as u32).to_le_seq()
        }
    }

    open spec fn from_le_seq(b: Seq<u8>) -> usize {
        if usize::BITS == 64 {
            <u64 as EndianReversible>::from_le_seq(b) as usize
        } else {
            <u32 as EndianReversible>::from_le_seq(b) as usize
        }
    }

    open spec fn byte_width() -> nat {
        if usize::BITS == 64 {
            8
        } else {
            4
        }
    }

    proof fn lemma_le_seq_roundtrip(x: usize) {
        if usize::BITS == 64 {
            <u64 as EndianReversible>::lemma_le_seq_roundtrip(x as u64);
        } else {
            <u32 as EndianReversible>::lemma_le_seq_roundtrip(x as u32);
        }
    }

    proof fn lemma_from_le_seq_roundtrip(b: Seq<u8>) {
        if usize::BITS == 64 {
            <u64 as EndianReversible>::lemma_from_le_seq_roundtrip(b);
        } else {
            <u32 as EndianReversible>::lemma_from_le_seq_roundtrip(b);
        }
    }

    open spec fn spec_one() -> usize {
        1
    }

    fn one() -> (r: usize) {
        1
    }

    proof fn lemma_one_le_seq() {
        if usize::BITS == 64 {
            <u64 as EndianReversible>::lemma_one_le_seq();
        } else {
            <u32 as EndianReversible>::lemma_one_le_seq();
        }
    }

    fn endian_reverse(self) -> (r: usize) {
        if usize::BITS == 64 {
            (self as u64).endian_reverse() as usize
        } else {
            (self as u32).endian_reverse() as usize
        }
    }
}

impl EndianReversible for isize {
    open spec fn to_le_seq(self) -> Seq<u8> {
        (self as usize).to_le_seq()
    }

    open spec fn from_le_seq(b: Seq<u8>) -> isize {
        <usize as EndianReversible>::from_le_seq(b) as isize
    }

    open spec fn byte_width() -> nat {
        <usize as EndianReversible>::byte_width()
    }

    proof fn lemma_le_seq_roundtrip(x: isize) {
        <usize as EndianReversible>::lemma_le_seq_roundtrip(x as usize);
        assert((x as usize) as isize == x) by (bit_vector);
    }

    proof fn lemma_from_le_seq_roundtrip(b: Seq<u8>) {
        <usize as EndianReversible>::lemma_from_le_seq_roundtrip(b);
        let v = <usize as EndianReversible>::from_le_seq(b);
        assert((v as isize) as usize == v) by (bit_vector);
    }

    open spec fn spec_one() -> isize {
        1
    }

    fn one() -> (r: isize) {
        1
    }

    proof fn lemma_one_le_seq() {
        <usize as EndianReversible>::lemma_one_le_seq();
    }

    fn endian_reverse(self) -> (r: isize) {
        (self as usize).endian_reverse() as isize
    }
}

/// The value whose bytes are those of `x` in the reverse order.
pub open spec fn reversed<T: EndianReversible>(x: T) -> T {
    T::from_le_seq(x.to_le_seq().reverse())
}

/// The bytes of `x`, most significant first.
pub open spec fn to_be_seq<T: EndianReversible>(x: T) -> Seq<u8> {
    x.to_le_seq().reverse()
}

/// The value whose bytes, most significant first, are `b`.
pub open spec fn from_be_seq<T: EndianReversible>(b: Seq<u8>) -> T {
    T::from_le_seq(b.reverse())
}

/// `x` held in byte order `from`, re-expressed in byte order `to`: unchanged
/// where the two orders agree on this machine, byte-reversed where they differ.
pub open spec fn converted<T: EndianReversible>(x: T, from: Order, to: Order) -> T {
    if resolved(from) == resolved(to) {
        x
    } else {
        reversed(x)
    }
}

/// Returns `x` with its bytes reversed.
pub fn endian_reverse<T: EndianReversible>(x: T) -> (r: T)
    ensures
        r == reversed(x),
{
    x.endian_reverse()
}

/// Converts `x` from big-endian to native byte order.
pub fn big_to_native<T: EndianReversible>(x: T) -> (r: T)
    ensures
        r == converted(x, Order::Big, Order::Native),
{
    if native_order() == Order::Big {
        x
    } else {
        x.endian_reverse()
    }
}

/// Converts `x` from native to big-endian byte order.
pub fn native_to_big<T: EndianReversible>(x: T) -> (r: T)
    ensures
        r == converted(x, Order::Native, Order::Big),
{
    big_to_native(x)
}

/// Converts `x` from little-endian to native byte order.
pub fn little_to_native<T: EndianReversible>(x: T) -> (r: T)
    ensures
        r == converted(x, Order::Little, Order::Native),
{
    if native_order() == Order::Little {
        x
    } else {
        x.endian_reverse()
    }
}

/// Converts `x` from native to little-endian byte order.
pub fn native_to_little<T: EndianReversible>(x: T) -> (r: T)
    ensures
        r == converted(x, Order::Native, Order::Little),
{
    little_to_native(x)
}

/// Returns `x` unchanged if `from` and `to` name the same byte order on this
/// machine, otherwise `x` with its bytes reversed.
pub fn conditional_reverse<T: EndianReversible>(x: T, from: Order, to: Order) -> (r: T)
    ensures
        r == converted(x, from, to),
{
    let from = resolve(from);
    let to = resolve(to);
    if from == to {
        x
    } else {
        x.endian_reverse()
    }
}

/// Reverses the bytes of `x` in place.
pub fn endian_reverse_inplace<T: EndianReversible>(x: &mut T)
    ensures
        *final(x) == reversed(*old(x)),
{
    *x = x.endian_reverse();
}

/// Converts `x` from big-endian to native in place.
pub fn big_to_native_inplace<T: EndianReversible>(x: &mut T)
    ensures
        *final(x) == converted(*old(x), Order::Big, Order::Native),
{
    *x = big_to_native(*x);
}

/// Converts `x` from native to big-endian in place.
pub fn native_to_big_inplace<T: EndianReversible>(x: &mut T)
    ensures
        *final(x) == converted(*old(x), Order::Native, Order::Big),
{
    *x = native_to_big(*x);
}

/// Converts `x` from little-endian to native in place.
pub fn little_to_native_inplace<T: EndianReversible>(x: &mut T)
    ensures
        *final(x) == converted(*old(x), Order::Little, Order::Native),
{
    *x = little_to_native(*x);
}

/// Converts `x` from native to little-endian in place.
pub fn native_to_little_inplace<T: EndianReversible>(x: &mut T)
    ensures
        *final(x) == converted(*old(x), Order::Native, Order::Little),
{
    *x = native_to_little(*x);
}

/// Reads an unsigned 16-bit integer stored big-endian in `p`.
pub fn load_big_u16(p: &[u8; 2]) -> (r: u16)
    ensures
        r == from_be_seq::<u16>(p@),
{
    proof {
        assert(p@.reverse() =~= seq![p[1], p[0]]);
    }
    (p[1] as u16)
        | ((p[0] as u16) << 8)
}

/// Reads an unsigned 16-bit integer stored little-endian in `p`.
pub fn load_little_u16(p: &[u8; 2]) -> (r: u16)
    ensures
        r == <u16 as EndianReversible>::from_le_seq(p@),
{
    (p[0] as u16)
        | ((p[1] as u16) << 8)
}

/// Writes `v` into `p` in big-endian byte order.
pub fn store_big_u16(p: &mut [u8; 2], v: u16)
    ensures
        final(p)@ == to_be_seq(v),
{
    *p = [(v >> 8) as u8, v as u8];
    proof {
        assert(p@ =~= to_be_seq(v));
    }
}

/// Writes `v` into `p` in little-endian byte order.
pub fn store_little_u16(p: &mut [u8; 2], v: u16)
    ensures
        final(p)@ == v.to_le_seq(),
{
    *p = [v as u8, (v >> 8) as u8];
    proof {
        assert(p@ =~= v.to_le_seq());
    }
}

/// Reads a signed 16-bit integer stored big-endian in `p`.
pub fn load_big_s16(p: &[u8; 2]) -> (r: i16)
    ensures
        r == from_be_seq::<i16>(p@),
{
    proof {
        assert(p@.reverse() =~= seq![p[1], p[0]]);
    }
    ((p[1] as u16)
        | ((p[0] as u16) << 8)) as i16
}

/// Reads a signed 16-bit integer stored little-endian in `p`.
pub fn load_little_s16(p: &[u8; 2]) -> (r: i16)
    ensures
        r == <i16 as EndianReversible>::from_le_seq(p@),
{
    ((p[0] as u16)
        | ((p[1] as u16) << 8)) as i16
}

/// Writes `v` into `p` in big-endian byte order.
pub fn store_big_s16(p: &mut [u8; 2], v: i16)
    ensures
        final(p)@ == to_be_seq(v),
{
    let u = v as u16;
    *p = [(u >> 8) as u8, u as u8];
    proof {
        assert(p@ =~= to_be_seq(v));
    }
}

/// Writes `v` into `p` in little-endian byte order.
pub fn store_little_s16(p: &mut [u8; 2], v: i16)
    ensures
        final(p)@ == v.to_le_seq(),
{
    let u = v as u16;
    *p = [u as u8, (u >> 8) as u8];
    proof {
        assert(p@ =~= v.to_le_seq());
    }
}

/// Reads an unsigned 32-bit integer stored big-endian in `p`.
pub fn load_big_u32(p: &[u8; 4]) -> (r: u32)
    ensures
        r == from_be_seq::<u32>(p@),
{
    proof {
        assert(p@.reverse() =~= seq![p[3], p[2], p[1], p[0]]);
    }
    (p[3] as u32)
        | ((p[2] as u32) << 8)
        | ((p[1] as u32) << 16)
        | ((p[0] as u32) << 24)
}

/// Reads an unsigned 32-bit integer stored little-endian in `p`.
pub fn load_little_u32(p: &[u8; 4]) -> (r: u32)
    ensures
        r == <u32 as EndianReversible>::from_le_seq(p@),
{
    (p[0] as u32)
        | ((p[1] as u32) << 8)
        | ((p[2] as u32) << 16)
        | ((p[3] as u32) << 24)
}

/// Writes `v` into `p` in big-endian byte order.
pub fn store_big_u32(p: &mut [u8; 4], v: u32)
    ensures
        final(p)@ == to_be_seq(v),
{
    *p = [(v >> 24) as u8, (v >> 16) as u8, (v >> 8) as u8, v as u8];
    proof {
        assert(p@ =~= to_be_seq(v));
    }
}

/// Writes `v` into `p` in little-endian byte order.
pub fn store_little_u32(p: &mut [u8; 4], v: u32)
    ensures
        final(p)@ == v.to_le_seq(),
{
    *p = [v as u8, (v >> 8) as u8, (v >> 16) as u8, (v >> 24) as u8];
    proof {
        assert(p@ =~= v.to_le_seq());
    }
}

/// Reads a signed 32-bit integer stored big-endian in `p`.
pub fn load_big_s32(p: &[u8; 4]) -> (r: i32)
    ensures
        r == from_be_seq::<i32>(p@),
{
    proof {
        assert(p@.reverse() =~= seq![p[3], p[2], p[1], p[0]]);
    }
    ((p[3] as u32)
        | ((p[2] as u32) << 8)
        | ((p[1] as u32) << 16)
        | ((p[0] as u32) << 24)) as i32
}

/// Reads a signed 32-bit integer stored little-endian in `p`.
pub fn load_little_s32(p: &[u8; 4]) -> (r: i32)
    ensures
        r == <i32 as EndianReversible>::from_le_seq(p@),
{
    ((p[0] as u32)
        | ((p[1] as u32) << 8)
        | ((p[2] as u32) << 16)
        | ((p[3] as u32) << 24)) as i32
}

/// Writes `v` into `p` in big-endian byte order.
pub fn store_big_s32(p: &mut [u8; 4], v: i32)
    ensures
        final(p)@ == to_be_seq(v),
{
    let u = v as u32;
    *p = [(u >> 24) as u8, (u >> 16) as u8, (u >> 8) as u8, u as u8];
    proof {
        assert(p@ =~= to_be_seq(v));
    }
}

/// Writes `v` into `p` in little-endian byte order.
pub fn store_little_s32(p: &mut [u8; 4], v: i32)
    ensures
        final(p)@ == v.to_le_seq(),
{
    let u = v as u32;
    *p = [u as u8, (u >> 8) as u8, (u >> 16) as u8, (u >> 24) as u8];
    proof {
        assert(p@ =~= v.to_le_seq());
    }
}

/// Reads an unsigned 64-bit integer stored big-endian in `p`.
pub fn load_big_u64(p: &[u8; 8]) -> (r: u64)
    ensures
        r == from_be_seq::<u64>(p@),
{
    proof {
        assert(p@.reverse() =~= seq![p[7], p[6], p[5], p[4], p[3], p[2], p[1], p[0]]);
    }
    (p[7] as u64)
        | ((p[6] as u64) << 8)
        | ((p[5] as u64) << 16)
        | ((p[4] as u64) << 24)
        | ((p[3] as u64) << 32)
        | ((p[2] as u64) << 40)
        | ((p[1] as u64) << 48)
        | ((p[0] as u64) << 56)
}

/// Reads an unsigned 64-bit integer stored little-endian in `p`.
pub fn load_little_u64(p: &[u8; 8]) -> (r: u64)
    ensures
        r == <u64 as EndianReversible>::from_le_seq(p@),
{
    (p[0] as u64)
        | ((p[1] as u64) << 8)
        | ((p[2] as u64) << 16)
        | ((p[3] as u64) << 24)
        | ((p[4] as u64) << 32)
        | ((p[5] as u64) << 40)
        | ((p[6] as u64) << 48)
        | ((p[7] as u64) << 56)
}

/// Writes `v` into `p` in big-endian byte order.
pub fn store_big_u64(p: &mut [u8; 8], v: u64)
    ensures
        final(p)@ == to_be_seq(v),
{
    *p = [(v >> 56) as u8, (v >> 48) as u8, (v >> 40) as u8, (v >> 32) as u8, (v >> 24) as u8, (v >> 16) as u8, (v >> 8) as u8, v as u8];
    proof {
        assert(p@ =~= to_be_seq(v));
    }
}

/// Writes `v` into `p` in little-endian byte order.
pub fn store_little_u64(p: &mut [u8; 8], v: u64)
    ensures
        final(p)@ == v.to_le_seq(),
{
    *p = [v as u8, (v >> 8) as u8, (v >> 16) as u8, (v >> 24) as u8, (v >> 32) as u8, (v >> 40) as u8, (v >> 48) as u8, (v >> 56) as u8];
    proof {
        assert(p@ =~= v.to_le_seq());
    }
}

/// Reads a signed 64-bit integer stored big-endian in `p`.
pub fn load_big_s64(p: &[u8; 8]) -> (r: i64)
    ensures
        r == from_be_seq::<i64>(p@),
{
    proof {
        assert(p@.reverse() =~= seq![p[7], p[6], p[5], p[4], p[3], p[2], p[1], p[0]]);
    }
    ((p[7] as u64)
        | ((p[6] as u64) << 8)
        | ((p[5] as u64) << 16)
        | ((p[4] as u64) << 24)
        | ((p[3] as u64) << 32)
        | ((p[2] as u64) << 40)
        | ((p[1] as u64) << 48)
        | ((p[0] as u64) << 56)) as i64
}

/// Reads a signed 64-bit integer stored little-endian in `p`.
pub fn load_little_s64(p: &[u8; 8]) -> (r: i64)
    ensures
        r == <i64 as EndianReversible>::from_le_seq(p@),
{
    ((p[0] as u64)
        | ((p[1] as u64) << 8)
        | ((p[2] as u64) << 16)
        | ((p[3] as u64) << 24)
        | ((p[4] as u64) << 32)
        | ((p[5] as u64) << 40)
        | ((p[6] as u64) << 48)
        | ((p[7] as u64) << 56)) as i64
}

/// Writes `v` into `p` in big-endian byte order.
pub fn store_big_s64(p: &mut [u8; 8], v: i64)
    ensures
        final(p)@ == to_be_seq(v),
{
    let u = v as u64;
    *p = [(u >> 56) as u8, (u >> 48) as u8, (u >> 40) as u8, (u >> 32) as u8, (u >> 24) as u8, (u >> 16) as u8, (u >> 8) as u8, u as u8];
    proof {
        assert(p@ =~= to_be_seq(v));
    }
}

/// Writes `v` into `p` in little-endian byte order.
pub fn store_little_s64(p: &mut [u8; 8], v: i64)
    ensures
        final(p)@ == v.to_le_seq(),
{
    let u = v as u64;
    *p = [u as u8, (u >> 8) as u8, (u >> 16) as u8, (u >> 24) as u8, (u >> 32) as u8, (u >> 40) as u8, (u >> 48) as u8, (u >> 56) as u8];
    proof {
        assert(p@ =~= v.to_le_seq());
    }
}

/// Reads an unsigned 24-bit integer stored big-endian in `p`.
pub fn load_big_u24(p: &[u8; 3]) -> (r: u32)
    ensures
        r == from_be_seq::<u32>(seq![0u8] + p@),
        r < 0x100_0000,
{
    let (a, b, c) = (p[0], p[1], p[2]);
    let r = ((a as u32) << 16) | ((b as u32) << 8) | (c as u32);
    proof {
        assert((seq![0u8] + p@).reverse() =~= seq![c, b, a, 0u8]);
        assert(r == (c as u32) | ((b as u32) << 8) | ((a as u32) << 16) | ((0u8 as u32) << 24)
            && r < 0x100_0000) by (bit_vector)
            requires
                r == ((a as u32) << 16) | ((b as u32) << 8) | (c as u32),
        ;
    }
    r
}

/// Reads an unsigned 24-bit integer stored little-endian in `p`.
pub fn load_little_u24(p: &[u8; 3]) -> (r: u32)
    ensures
        r == <u32 as EndianReversible>::from_le_seq(p@.push(0u8)),
        r < 0x100_0000,
{
    let (a, b, c) = (p[0], p[1], p[2]);
    let r = (a as u32) | ((b as u32) << 8) | ((c as u32) << 16);
    proof {
        assert(p@.push(0u8) =~= seq![a, b, c, 0u8]);
        assert(r == (a as u32) | ((b as u32) << 8) | ((c as u32) << 16) | ((0u8 as u32) << 24)
            && r < 0x100_0000) by (bit_vector)
            requires
                r == (a as u32) | ((b as u32) << 8) | ((c as u32) << 16),
        ;
    }
    r
}

/// The signed value of a 24-bit two's-complement pattern held in the low
/// three bytes of `raw`.
pub open spec fn sign_extend_24(raw: u32) -> i32 {
    if raw < 0x80_0000 {
        raw as i32
    } else {
        (raw - 0x100_0000) as i32
    }
}

fn extend_sign_24(raw: u32) -> (r: i32)
    requires
        raw < 0x100_0000,
    ensures
        r == sign_extend_24(raw),
{
    if raw & 0x0080_0000 != 0 {
        proof {
            assert(raw & 0x0080_0000 != 0 ==> raw >= 0x80_0000) by (bit_vector)
                requires
                    raw < 0x100_0000u32;
            assert(raw >= 0x80_0000 ==> ((raw | 0xFF00_0000) as i32) == raw - 0x100_0000)
                by (bit_vector)
                requires
                    raw < 0x100_0000u32;
        }
        (raw | 0xFF00_0000) as i32
    } else {
        proof {
            assert(raw & 0x0080_0000 == 0 ==> raw < 0x80_0000) by (bit_vector)
                requires
                    raw < 0x100_0000u32;
        }
        raw as i32
    }
}

/// Reads a signed 24-bit integer stored big-endian in `p`, sign-extended to 32 bits.
pub fn load_big_s24(p: &[u8; 3]) -> (r: i32)
    ensures
        r == sign_extend_24(from_be_seq::<u32>(seq![0u8] + p@)),
{
    let raw = load_big_u24(p);
    extend_sign_24(raw)
}

/// Reads a signed 24-bit integer stored little-endian in `p`, sign-extended to 32 bits.
pub fn load_little_s24(p: &[u8; 3]) -> (r: i32)
    ensures
        r == sign_extend_24(<u32 as EndianReversible>::from_le_seq(p@.push(0u8))),
{
    let raw = load_little_u24(p);
    extend_sign_24(raw)
}

/// Writes the three least significant bytes of `v` into `p`, most significant first.
pub fn store_big_u24(p: &mut [u8; 3], v: u32)
    ensures
        final(p)@ == to_be_seq(v).subrange(1, 4),
{
    *p = [(v >> 16) as u8, (v >> 8) as u8, v as u8];
    proof {
        assert(p@ =~= to_be_seq(v).subrange(1, 4));
    }
}

/// Writes the three least significant bytes of `v` (its 24-bit two's-complement
/// pattern) into `p`, most significant first.
pub fn store_big_s24(p: &mut [u8; 3], v: i32)
    ensures
        final(p)@ == to_be_seq(v).subrange(1, 4),
{
    store_big_u24(p, v as u32);
}

/// Writes the three least significant bytes of `v` into `p`, least significant first.
pub fn store_little_u24(p: &mut [u8; 3], v: u32)
    ensures
        final(p)@ == v.to_le_seq().subrange(0, 3),
{
    *p = [v as u8, (v >> 8) as u8, (v >> 16) as u8];
    proof {
        assert(p@ =~= v.to_le_seq().subrange(0, 3));
    }
}

/// Writes the three least significant bytes of `v` (its 24-bit two's-complement
/// pattern) into `p`, least significant first.
pub fn store_little_s24(p: &mut [u8; 3], v: i32)
    ensures
        final(p)@ == v.to_le_seq().subrange(0, 3),
{
    store_little_u24(p, v as u32);
}

// ── Laws ────────────────────────────────────────────────────────────────────

/// The bytes of `reversed(x)` are the bytes of `x` in the reverse order.
pub proof fn lemma_reversed_bytes<T: EndianReversible>(x: T)
    ensures
        reversed(x).to_le_seq() == x.to_le_seq().reverse(),
{
    T::lemma_le_seq_roundtrip(x);
    T::lemma_from_le_seq_roundtrip(x.to_le_seq().reverse());
}

/// Reversing the bytes twice gives back the value.
pub proof fn lemma_reversed_involutive<T: EndianReversible>(x: T)
    ensures
        reversed(reversed(x)) == x,
{
    lemma_reversed_bytes(x);
    assert(x.to_le_seq().reverse().reverse() =~= x.to_le_seq());
    T::lemma_le_seq_roundtrip(x);
}

/// Converting from one order to another and back gives back the value; in
/// particular `big_to_native(native_to_big(x)) == x` and
/// `little_to_native(native_to_little(x)) == x`.
pub proof fn lemma_converted_roundtrip<T: EndianReversible>(x: T, from: Order, to: Order)
    ensures
        converted(converted(x, from, to), to, from) == x,
{
    lemma_reversed_involutive(x);
}

/// Converting between an order and itself changes nothing.
pub proof fn lemma_converted_same<T: EndianReversible>(x: T, o: Order)
    ensures
        converted(x, o, o) == x,
{
}

/// Conversion is the same operation in both directions; in particular
/// `native_to_big` and `big_to_native` agree, as do `native_to_little` and
/// `little_to_native`.
pub proof fn lemma_converted_symmetric<T: EndianReversible>(x: T, a: Order, b: Order)
    ensures
        converted(x, a, b) == converted(x, b, a),
{
}

/// Big-endian and little-endian always differ: converting between them
/// reverses the bytes, whatever the machine.
pub proof fn lemma_big_little_reverse<T: EndianReversible>(x: T)
    ensures
        converted(x, Order::Big, Order::Little) == reversed(x),
        converted(x, Order::Little, Order::Big) == reversed(x),
{
}

/// Exactly one of big-to-native and little-to-native reverses the bytes.
pub proof fn lemma_one_order_is_native<T: EndianReversible>(x: T)
    ensures
        converted(x, Order::Big, Order::Native) == x || converted(x, Order::Little, Order::Native) == x,
        spec_native_order() != Order::Native,
        converted(x, Order::Big, Order::Native) == x ==> converted(x, Order::Little, Order::Native) == reversed(x),
        converted(x, Order::Little, Order::Native) == x ==> converted(x, Order::Big, Order::Native) == reversed(x),
{
}

/// Reading back what a store wrote gives the stored value, in both byte
/// orders (the contract of `load_*` applied to what `store_*` wrote).
pub proof fn lemma_store_then_load<T: EndianReversible>(v: T)
    ensures
        T::from_le_seq(v.to_le_seq()) == v,
        from_be_seq::<T>(to_be_seq(v)) == v,
{
    T::lemma_le_seq_roundtrip(v);
    assert(v.to_le_seq().reverse().reverse() =~= v.to_le_seq());
}

/// Storing what a load read writes back the same bytes.
pub proof fn lemma_load_then_store<T: EndianReversible>(b: Seq<u8>)
    requires
        b.len() == T::byte_width(),
    ensures
        T::from_le_seq(b).to_le_seq() == b,
        to_be_seq(from_be_seq::<T>(b)) == b,
{
    T::lemma_from_le_seq_roundtrip(b);
    T::lemma_from_le_seq_roundtrip(b.reverse());
    assert(b.reverse().reverse() =~= b);
}

/// A signed 24-bit store followed by a signed 24-bit load of the same byte
/// order gives back the value, for every value that fits in 24 bits.
pub proof fn lemma_s24_roundtrip(v: i32)
    requires
        -0x80_0000 <= v < 0x80_0000,
    ensures
        sign_extend_24(from_be_seq::<u32>(seq![0u8] + to_be_seq(v).subrange(1, 4))) == v,
        sign_extend_24(
            <u32 as EndianReversible>::from_le_seq(v.to_le_seq().subrange(0, 3).push(0u8)),
        ) == v,
{
    let u = v as u32;
    let (b0, b1, b2) = (u as u8, (u >> 8) as u8, (u >> 16) as u8);
    let big = seq![0u8] + to_be_seq(v).subrange(1, 4);
    assert(big.reverse() =~= seq![b0, b1, b2, 0u8]);
    let little = v.to_le_seq().subrange(0, 3).push(0u8);
    assert(little =~= seq![b0, b1, b2, 0u8]);
    let raw = (b0 as u32) | ((b1 as u32) << 8) | ((b2 as u32) << 16) | ((0u8 as u32) << 24);
    assert((raw < 0x80_0000 ==> raw as i32 == v) && (raw >= 0x80_0000 ==> (raw - 0x100_0000) as i32
        == v)) by (bit_vector)
        requires
            u == v as u32,
            -0x80_0000 <= v < 0x80_0000,
            b0 == u as u8,
            b1 == (u >> 8) as u8,
            b2 == (u >> 16) as u8,
            raw == (b0 as u32) | ((b1 as u32) << 8) | ((b2 as u32) << 16) | ((0u8 as u32) << 24),
    ;
}

/// An unsigned 24-bit store followed by an unsigned 24-bit load of the same
/// byte order gives back the value's low 24 bits.
pub proof fn lemma_u24_roundtrip(v: u32)
    ensures
        from_be_seq::<u32>(seq![0u8] + to_be_seq(v).subrange(1, 4)) == v % 0x100_0000,
        <u32 as EndianReversible>::from_le_seq(v.to_le_seq().subrange(0, 3).push(0u8)) == v
            % 0x100_0000,
{
    let (b0, b1, b2) = (v as u8, (v >> 8) as u8, (v >> 16) as u8);
    let big = seq![0u8] + to_be_seq(v).subrange(1, 4);
    assert(big.reverse() =~= seq![b0, b1, b2, 0u8]);
    let little = v.to_le_seq().subrange(0, 3).push(0u8);
    assert(little =~= seq![b0, b1, b2, 0u8]);
    assert((b0 as u32) | ((b1 as u32) << 8) | ((b2 as u32) << 16) | ((0u8 as u32) << 24) == v
        % 0x100_0000) by (bit_vector)
        requires
            b0 == v as u8,
            b1 == (v >> 8) as u8,
            b2 == (v >> 16) as u8,
    ;
}

/// The bytes of `x` in the order the machine lays them out in memory.
pub open spec fn memory_bytes<T: EndianReversible>(x: T) -> Seq<u8> {
    match endianness() {
        Endian::Little => x.to_le_seq(),
        Endian::Big => to_be_seq(x),
    }
}

/// A value converted from native order to an order `o` lies in memory as the
/// value's bytes in order `o`; this is what makes the stored form of the
/// buffer and arithmetic types ready for binary I/O.
pub proof fn lemma_converted_memory_bytes<T: EndianReversible>(v: T)
    ensures
        memory_bytes(converted(v, Order::Native, Order::Big)) == to_be_seq(v),
        memory_bytes(converted(v, Order::Native, Order::Little)) == v.to_le_seq(),
        memory_bytes(converted(v, Order::Native, Order::Native)) == memory_bytes(v),
{
    lemma_reversed_bytes(v);
    assert(v.to_le_seq().reverse().reverse() =~= v.to_le_seq());
}

} // verus!
