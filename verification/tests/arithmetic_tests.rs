use endian::arithmetic::{BigEndianInt, EndianInt, LittleEndianInt, NativeEndianInt};
use endian::conversion::{native_to_big, native_to_little};

type BEi32 = BigEndianInt<i32>;
type LEu32 = LittleEndianInt<u32>;

#[test]
fn from_and_into() {
    let x: BEi32 = 42.into();
    let v: i32 = x.into();
    assert_eq!(v, 42);
}

#[test]
fn arithmetic_ops() {
    let mut x: BEi32 = 10.into();
    x.add_assign(5);
    assert_eq!(x.get(), 15);
    x.mul_assign(3);
    assert_eq!(x.get(), 45);
    x.sub_assign(5);
    assert_eq!(x.get(), 40);
}

#[test]
fn bitwise_ops() {
    let a: LEu32 = 0xFF00u32.into();
    let b: LEu32 = 0x00FFu32.into();
    assert_eq!((a | b).get(), 0xFFFF);
    assert_eq!((a & b).get(), 0x0000);
    assert_eq!((a ^ b).get(), 0xFFFF);
}

#[test]
fn neg_and_not() {
    let x: BEi32 = 7.into();
    assert_eq!((-x).get(), -7);
    let mask: BigEndianInt<u32> = 0u32.into();
    assert_eq!((!mask).get(), u32::MAX);
}

#[test]
fn inc_dec() {
    let mut x: BEi32 = 0.into();
    x.inc();
    x.inc();
    assert_eq!(x.get(), 2);
    x.dec();
    assert_eq!(x.get(), 1);
}

#[test]
fn ordering() {
    let a: BEi32 = 1.into();
    let b: BEi32 = 2.into();
    assert!(a < b);
    assert_eq!(a.min(b).get(), 1);
}

#[test]
fn size_matches_inner() {
    assert_eq!(std::mem::size_of::<BEi32>(), std::mem::size_of::<i32>());
    assert_eq!(std::mem::size_of::<LittleEndianInt<u64>>(), std::mem::size_of::<u64>());
}

#[test]
fn loop_accumulation() {
    // Add 1..=100 to a big-endian i32.
    let mut x: BEi32 = 0.into();
    for i in 1..=100_i32 {
        x.add_assign(i);
    }
    assert_eq!(x.get(), 5050);
}

#[test]
fn operators_between_endian_ints() {
    let a: BEi32 = 17.into();
    let b: BEi32 = 5.into();
    assert_eq!((a + b).get(), 22);
    assert_eq!((a - b).get(), 12);
    assert_eq!((a * b).get(), 85);
    assert_eq!((a / b).get(), 3);
    assert_eq!((a % b).get(), 2);
    assert_eq!((a - 20).get(), -3);
    assert_eq!((a / -5).get(), -3);
    assert_eq!((a % -5).get(), 2);
    let s: LEu32 = 1u32.into();
    assert_eq!((s << 4u32).get(), 16);
    assert_eq!((LEu32::new(0x80) >> 3u32).get(), 0x10);
    assert_eq!((s << LEu32::new(31)).get(), 0x8000_0000);
}

#[test]
fn assign_operators() {
    let mut x: LittleEndianInt<u16> = EndianInt::new(0xF0F0);
    x.bitand_assign(0xFF00);
    assert_eq!(x.get(), 0xF000);
    x.bitor_assign(0x000F);
    assert_eq!(x.get(), 0xF00F);
    x.bitxor_assign(0xFFFF);
    assert_eq!(x.get(), 0x0FF0);
    x.shr_assign(4);
    assert_eq!(x.get(), 0x00FF);
    x.shl_assign(8);
    assert_eq!(x.get(), 0xFF00);
    x.div_assign(0x100);
    assert_eq!(x.get(), 0xFF);
    x.rem_assign(0x10);
    assert_eq!(x.get(), 0xF);
}

#[test]
fn stored_representation_and_max() {
    let x: BigEndianInt<u32> = EndianInt::new(0x0102_0304);
    assert_eq!(*x.data(), native_to_big(0x0102_0304u32));
    assert_eq!(x.data().to_ne_bytes(), [1, 2, 3, 4]);
    let y: LittleEndianInt<u32> = EndianInt::new(0x0102_0304);
    assert_eq!(*y.data(), native_to_little(0x0102_0304u32));
    let a: BigEndianInt<u32> = EndianInt::new(1);
    let b: BigEndianInt<u32> = EndianInt::new(256);
    assert_eq!(a.max(b).get(), 256);
    assert_eq!(a.min(b).get(), 1);
    assert!(a < b);
    let mut n: NativeEndianInt<i64> = EndianInt::new(-9);
    n.set(9);
    assert_eq!(*n.data(), 9);
    let d: BigEndianInt<i16> = Default::default();
    assert_eq!(d.get(), 0);
    let u: u16 = BigEndianInt::<u16>::new(0xABCD).into();
    assert_eq!(u, 0xABCD);
}

#[test]
fn assign_operators_with_endian_int_rhs() {
    let mut x: BEi32 = 10.into();
    let three: BEi32 = 3.into();
    x.add_assign(three);
    assert_eq!(x.get(), 13);
    x.sub_assign(three);
    assert_eq!(x.get(), 10);
    x.mul_assign(three);
    assert_eq!(x.get(), 30);
    x.div_assign(three);
    assert_eq!(x.get(), 10);
    x.rem_assign(three);
    assert_eq!(x.get(), 1);
    let mut m: LEu32 = 0xF0u32.into();
    m.bitor_assign(LEu32::new(0x0F));
    assert_eq!(m.get(), 0xFF);
    m.bitand_assign(LEu32::new(0x3C));
    assert_eq!(m.get(), 0x3C);
    m.bitxor_assign(LEu32::new(0xFF));
    assert_eq!(m.get(), 0xC3);
    m.shl_assign(LEu32::new(4));
    assert_eq!(m.get(), 0xC30);
    m.shr_assign(LEu32::new(8));
    assert_eq!(m.get(), 0xC);
}

#[test]
fn inc_dec_keep_byte_order() {
    let mut x: BigEndianInt<u16> = 0x00FFu16.into();
    x.inc();
    assert_eq!(x.get(), 0x0100);
    assert_eq!(*x.data(), native_to_big(0x0100u16));
    let mut y: LittleEndianInt<i8> = 0i8.into();
    y.dec();
    assert_eq!(y.get(), -1);
    y.inc();
    y.inc();
    assert_eq!(y.get(), 1);
}
