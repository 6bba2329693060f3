use endian::conversion::{
    big_to_native, big_to_native_inplace, conditional_reverse, endian_reverse,
    endian_reverse_inplace, little_to_native, little_to_native_inplace, load_big_s16,
    load_big_s24, load_big_s32, load_big_s64, load_big_u16, load_big_u24, load_big_u32,
    load_big_u64, load_little_s16, load_little_s24, load_little_s32, load_little_s64,
    load_little_u16, load_little_u24, load_little_u32, load_little_u64, native_order,
    native_to_big, native_to_big_inplace, native_to_little, native_to_little_inplace,
    store_big_s16, store_big_s24, store_big_s32, store_big_s64, store_big_u16, store_big_u24,
    store_big_u32, store_big_u64, store_little_s16, store_little_s24, store_little_s32,
    store_little_s64, store_little_u16, store_little_u24, store_little_u32, store_little_u64,
    Order,
};

#[test]
fn reverse_u32() {
    assert_eq!(endian_reverse(0x01020304u32), 0x04030201u32);
}

#[test]
fn native_big_roundtrip_u32() {
    let v: u32 = 0xDEAD_BEEF;
    assert_eq!(big_to_native(native_to_big(v)), v);
}

#[test]
fn native_little_roundtrip_u64() {
    let v: u64 = 0x0102_0304_0506_0708;
    assert_eq!(little_to_native(native_to_little(v)), v);
}

#[test]
fn load_store_roundtrip_big_u32() {
    let mut buf = [0u8; 4];
    store_big_u32(&mut buf, 0xCAFE_BABE);
    assert_eq!(load_big_u32(&buf), 0xCAFE_BABE);
}

#[test]
fn load_store_24bit_sign_extend() {
    let mut buf = [0u8; 3];
    store_big_s24(&mut buf, -1);
    assert_eq!(load_big_s24(&buf), -1);

    store_little_s24(&mut buf, -42);
    assert_eq!(load_little_s24(&buf), -42);
}

#[test]
fn f32_reverse_roundtrip() {
    // Floats are reversed through their bit pattern.
    let v = std::f32::consts::PI;
    let twice = f32::from_bits(endian_reverse(endian_reverse(v.to_bits())));
    assert_eq!(twice, v);
}

#[test]
fn inplace_matches_value() {
    let mut x: u32 = 0xAABBCCDD;
    let expected = big_to_native(x);
    big_to_native_inplace(&mut x);
    assert_eq!(x, expected);
}

#[test]
fn native_order_matches_target() {
    let o = native_order();
    assert!(o == Order::Big || o == Order::Little);
    if u16::from_ne_bytes([1, 0]) == 1 {
        assert!(o == Order::Little);
    } else {
        assert!(o == Order::Big);
    }
}

#[test]
fn reverse_all_widths() {
    assert_eq!(endian_reverse(0xABu8), 0xAB);
    assert_eq!(endian_reverse(-2i8), -2);
    assert_eq!(endian_reverse(0x1234u16), 0x3412);
    assert_eq!(endian_reverse(0x0102i16), 0x0201);
    assert_eq!(endian_reverse(-2i16), 0xFEFFu16 as i16);
    assert_eq!(endian_reverse(0x0102_0304_0506_0708u64), 0x0807_0605_0403_0201);
    assert_eq!(endian_reverse(1i64), 0x0100_0000_0000_0000);
    assert_eq!(
        endian_reverse(0x0102_0304_0506_0708_090A_0B0C_0D0E_0F10u128),
        0x100F_0E0D_0C0B_0A09_0807_0605_0403_0201
    );
    assert_eq!(endian_reverse(-1i128), -1);
    assert_eq!(endian_reverse(7usize), 7usize.swap_bytes());
    assert_eq!(endian_reverse(-7isize), (-7isize).swap_bytes());
    assert_eq!(endian_reverse(0x0102_0304i32), 0x0403_0201);
}

#[test]
fn reverse_is_involutive_on_samples() {
    for v in [0u32, 1, 0xFF, 0x8000_0000, 0xDEAD_BEEF, u32::MAX] {
        assert_eq!(endian_reverse(endian_reverse(v)), v);
    }
    for v in [i64::MIN, -1, 0, 1, i64::MAX] {
        assert_eq!(endian_reverse(endian_reverse(v)), v);
    }
}

#[test]
fn conversions_follow_the_target_order() {
    let v: u32 = 0x1122_3344;
    if u16::from_ne_bytes([1, 0]) == 1 {
        assert_eq!(big_to_native(v), 0x4433_2211);
        assert_eq!(native_to_big(v), 0x4433_2211);
        assert_eq!(little_to_native(v), v);
        assert_eq!(native_to_little(v), v);
    } else {
        assert_eq!(big_to_native(v), v);
        assert_eq!(little_to_native(v), 0x4433_2211);
    }
    assert_eq!(native_to_big(v), big_to_native(v));
    assert_eq!(native_to_little(v), little_to_native(v));
}

#[test]
fn conditional_reverse_cases() {
    let v: u16 = 0x1234;
    assert_eq!(conditional_reverse(v, Order::Big, Order::Big), v);
    assert_eq!(conditional_reverse(v, Order::Native, Order::Native), v);
    assert_eq!(conditional_reverse(v, Order::Big, Order::Little), 0x3412);
    assert_eq!(conditional_reverse(v, Order::Little, Order::Big), 0x3412);
    assert_eq!(conditional_reverse(v, Order::Native, Order::Big), native_to_big(v));
    assert_eq!(conditional_reverse(v, Order::Little, Order::Native), little_to_native(v));
    let back = conditional_reverse(conditional_reverse(v, Order::Big, Order::Native), Order::Native, Order::Big);
    assert_eq!(back, v);
}

#[test]
fn inplace_variants() {
    let mut a: u64 = 0x0102_0304_0506_0708;
    endian_reverse_inplace(&mut a);
    assert_eq!(a, 0x0807_0605_0403_0201);
    let mut b: i32 = -5;
    native_to_big_inplace(&mut b);
    assert_eq!(b, native_to_big(-5i32));
    let mut c: i16 = 300;
    little_to_native_inplace(&mut c);
    assert_eq!(c, little_to_native(300i16));
    let mut d: u16 = 0xBEEF;
    native_to_little_inplace(&mut d);
    assert_eq!(d, native_to_little(0xBEEFu16));
}

#[test]
fn loads_read_the_documented_bytes() {
    assert_eq!(load_big_u16(&[0x12, 0x34]), 0x1234);
    assert_eq!(load_little_u16(&[0x12, 0x34]), 0x3412);
    assert_eq!(load_big_s16(&[0xFF, 0xFE]), -2);
    assert_eq!(load_little_s16(&[0xFE, 0xFF]), -2);
    assert_eq!(load_big_u32(&[1, 2, 3, 4]), 0x0102_0304);
    assert_eq!(load_little_u32(&[1, 2, 3, 4]), 0x0403_0201);
    assert_eq!(load_big_s32(&[0x80, 0, 0, 0]), i32::MIN);
    assert_eq!(load_little_s32(&[0xFF, 0xFF, 0xFF, 0x7F]), i32::MAX);
    assert_eq!(load_big_u64(&[1, 2, 3, 4, 5, 6, 7, 8]), 0x0102_0304_0506_0708);
    assert_eq!(load_little_u64(&[1, 2, 3, 4, 5, 6, 7, 8]), 0x0807_0605_0403_0201);
    assert_eq!(load_big_s64(&[0xFF; 8]), -1);
    assert_eq!(load_little_s64(&[0, 0, 0, 0, 0, 0, 0, 0x80]), i64::MIN);
}

#[test]
fn stores_write_the_documented_bytes() {
    let mut b2 = [0u8; 2];
    store_big_u16(&mut b2, 0x1234);
    assert_eq!(b2, [0x12, 0x34]);
    store_little_u16(&mut b2, 0x1234);
    assert_eq!(b2, [0x34, 0x12]);
    store_big_s16(&mut b2, -2);
    assert_eq!(b2, [0xFF, 0xFE]);
    store_little_s16(&mut b2, -2);
    assert_eq!(b2, [0xFE, 0xFF]);
    let mut b4 = [0u8; 4];
    store_big_s32(&mut b4, -1);
    assert_eq!(b4, [0xFF; 4]);
    store_little_u32(&mut b4, 0x0102_0304);
    assert_eq!(b4, [4, 3, 2, 1]);
    store_little_s32(&mut b4, i32::MIN);
    assert_eq!(b4, [0, 0, 0, 0x80]);
    let mut b8 = [0u8; 8];
    store_big_u64(&mut b8, 0x0102_0304_0506_0708);
    assert_eq!(b8, [1, 2, 3, 4, 5, 6, 7, 8]);
    store_little_u64(&mut b8, 0x0102_0304_0506_0708);
    assert_eq!(b8, [8, 7, 6, 5, 4, 3, 2, 1]);
    store_big_s64(&mut b8, i64::MIN);
    assert_eq!(b8, [0x80, 0, 0, 0, 0, 0, 0, 0]);
    store_little_s64(&mut b8, -2);
    assert_eq!(b8, [0xFE, 0xFF, 0xFF, 0xFF, 0xFF, 0xFF, 0xFF, 0xFF]);
}

#[test]
fn load_after_store_all_widths() {
    let mut b2 = [0u8; 2];
    for v in [i16::MIN, -1, 0, 1, i16::MAX] {
        store_big_s16(&mut b2, v);
        assert_eq!(load_big_s16(&b2), v);
        store_little_s16(&mut b2, v);
        assert_eq!(load_little_s16(&b2), v);
    }
    let mut b8 = [0u8; 8];
    for v in [0u64, 1, u64::MAX, 0x8000_0000_0000_0000] {
        store_big_u64(&mut b8, v);
        assert_eq!(load_big_u64(&b8), v);
        store_little_u64(&mut b8, v);
        assert_eq!(load_little_u64(&b8), v);
    }
}

#[test]
fn twenty_four_bit_edges() {
    let mut b = [0u8; 3];
    store_big_u24(&mut b, 0x0012_3456);
    assert_eq!(b, [0x12, 0x34, 0x56]);
    assert_eq!(load_big_u24(&b), 0x0012_3456);
    store_little_u24(&mut b, 0x0012_3456);
    assert_eq!(b, [0x56, 0x34, 0x12]);
    assert_eq!(load_little_u24(&b), 0x0012_3456);
    // The most significant byte is dropped.
    store_big_u24(&mut b, 0xAB12_3456);
    assert_eq!(load_big_u24(&b), 0x0012_3456);
    // Sign extension at the limits of 24 bits.
    store_big_s24(&mut b, -0x80_0000);
    assert_eq!(b, [0x80, 0, 0]);
    assert_eq!(load_big_s24(&b), -0x80_0000);
    store_little_s24(&mut b, 0x7F_FFFF);
    assert_eq!(b, [0xFF, 0xFF, 0x7F]);
    assert_eq!(load_little_s24(&b), 0x7F_FFFF);
    assert_eq!(load_big_s24(&[0x80, 0x00, 0x01]), -0x7F_FFFF);
    assert_eq!(load_little_u24(&[0xFF, 0xFF, 0xFF]), 0x00FF_FFFF);
    assert_eq!(load_little_s24(&[0xFF, 0xFF, 0xFF]), -1);
}
