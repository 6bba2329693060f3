use endian::ffi;

#[test]
fn slice_loads_use_the_first_bytes() {
    let p = [1u8, 2, 3, 4, 5, 6, 7, 8, 9];
    assert_eq!(ffi::load_big_u16(&p), 0x0102);
    assert_eq!(ffi::load_little_u16(&p), 0x0201);
    assert_eq!(ffi::load_big_s16(&[0xFF, 0xFE, 7]), -2);
    assert_eq!(ffi::load_little_s16(&[0xFE, 0xFF]), -2);
    assert_eq!(ffi::load_big_u32(&p), 0x0102_0304);
    assert_eq!(ffi::load_little_u32(&p), 0x0403_0201);
    assert_eq!(ffi::load_big_s32(&[0xFF, 0xFF, 0xFF, 0xFF, 0]), -1);
    assert_eq!(ffi::load_little_s32(&[0, 0, 0, 0x80]), i32::MIN);
    assert_eq!(ffi::load_big_u64(&p), 0x0102_0304_0506_0708);
    assert_eq!(ffi::load_little_u64(&p), 0x0807_0605_0403_0201);
    assert_eq!(ffi::load_big_s64(&[0x80, 0, 0, 0, 0, 0, 0, 0]), i64::MIN);
    assert_eq!(ffi::load_little_s64(&[0xFF; 8]), -1);
}

#[test]
fn slice_stores_keep_the_rest() {
    let mut p = [0xAAu8; 10];
    ffi::store_big_u16(&mut p, 0x1234);
    assert_eq!(p[..3], [0x12, 0x34, 0xAA]);
    ffi::store_little_u32(&mut p, 0x0102_0304);
    assert_eq!(p[..5], [4, 3, 2, 1, 0xAA]);
    ffi::store_big_u64(&mut p, 0x0102_0304_0506_0708);
    assert_eq!(p, [1, 2, 3, 4, 5, 6, 7, 8, 0xAA, 0xAA]);
    ffi::store_little_s16(&mut p, -2);
    assert_eq!(p[..3], [0xFE, 0xFF, 3]);
    ffi::store_big_s32(&mut p, -2);
    assert_eq!(p[..4], [0xFF, 0xFF, 0xFF, 0xFE]);
    ffi::store_little_s64(&mut p, i64::MIN);
    assert_eq!(p[..9], [0, 0, 0, 0, 0, 0, 0, 0x80, 0xAA]);
    ffi::store_big_s16(&mut p, i16::MIN);
    assert_eq!(p[..2], [0x80, 0]);
    ffi::store_little_u16(&mut p, 0xBEEF);
    assert_eq!(p[..2], [0xEF, 0xBE]);
    ffi::store_big_u32(&mut p, 0xCAFE_BABE);
    assert_eq!(ffi::load_big_u32(&p), 0xCAFE_BABE);
    ffi::store_little_s32(&mut p, -7);
    assert_eq!(ffi::load_little_s32(&p), -7);
    ffi::store_big_s64(&mut p, -7);
    assert_eq!(ffi::load_big_s64(&p), -7);
    ffi::store_little_u64(&mut p, 99);
    assert_eq!(ffi::load_little_u64(&p), 99);
}

#[test]
fn value_conversions() {
    assert_eq!(ffi::endian_reverse_u16(0x1234), 0x3412);
    assert_eq!(ffi::endian_reverse_i16(0x0102), 0x0201);
    assert_eq!(ffi::endian_reverse_u32(0x0102_0304), 0x0403_0201);
    assert_eq!(ffi::endian_reverse_i32(1), 0x0100_0000);
    assert_eq!(ffi::endian_reverse_u64(1), 0x0100_0000_0000_0000);
    assert_eq!(ffi::endian_reverse_i64(-1), -1);
    let little = u16::from_ne_bytes([1, 0]) == 1;
    let v: u32 = 0x1122_3344;
    let swapped: u32 = 0x4433_2211;
    assert_eq!(ffi::big_to_native_u32(v), if little { swapped } else { v });
    assert_eq!(ffi::native_to_big_u32(v), if little { swapped } else { v });
    assert_eq!(ffi::little_to_native_u32(v), if little { v } else { swapped });
    assert_eq!(ffi::native_to_little_u32(v), if little { v } else { swapped });
    assert_eq!(ffi::big_to_native_i16(ffi::native_to_big_i16(-300)), -300);
    assert_eq!(ffi::little_to_native_i64(ffi::native_to_little_i64(-300)), -300);
    assert_eq!(ffi::big_to_native_u16(ffi::native_to_big_u16(300)), 300);
    assert_eq!(ffi::big_to_native_u64(ffi::native_to_big_u64(300)), 300);
    assert_eq!(ffi::big_to_native_i32(ffi::native_to_big_i32(-1)), -1);
    assert_eq!(ffi::big_to_native_i64(ffi::native_to_big_i64(5)), 5);
    assert_eq!(ffi::little_to_native_u16(ffi::native_to_little_u16(7)), 7);
    assert_eq!(ffi::little_to_native_i16(ffi::native_to_little_i16(7)), 7);
    assert_eq!(ffi::little_to_native_i32(ffi::native_to_little_i32(7)), 7);
    assert_eq!(ffi::little_to_native_u64(ffi::native_to_little_u64(7)), 7);
}

#[test]
fn shared_buffers_hold_target_order() {
    let b = ffi::big_uint32_buf_new(0x0102_0304);
    assert_eq!(b.raw.to_ne_bytes(), [1, 2, 3, 4]);
    assert_eq!(ffi::big_uint32_buf_get(b), 0x0102_0304);
    let l = ffi::little_uint32_buf_new(0x0102_0304);
    assert_eq!(l.raw.to_ne_bytes(), [4, 3, 2, 1]);
    assert_eq!(ffi::little_uint32_buf_get(l), 0x0102_0304);
    assert_eq!(ffi::big_int16_buf_get(ffi::big_int16_buf_new(-2)), -2);
    assert_eq!(ffi::big_int16_buf_new(-2).raw.to_ne_bytes(), [0xFF, 0xFE]);
    assert_eq!(ffi::big_int32_buf_get(ffi::big_int32_buf_new(-3)), -3);
    assert_eq!(ffi::big_int64_buf_get(ffi::big_int64_buf_new(-4)), -4);
    assert_eq!(ffi::big_uint16_buf_get(ffi::big_uint16_buf_new(5)), 5);
    assert_eq!(ffi::big_uint64_buf_get(ffi::big_uint64_buf_new(6)), 6);
    assert_eq!(ffi::little_int16_buf_get(ffi::little_int16_buf_new(-7)), -7);
    assert_eq!(ffi::little_int16_buf_new(-2).raw.to_ne_bytes(), [0xFE, 0xFF]);
    assert_eq!(ffi::little_int32_buf_get(ffi::little_int32_buf_new(-8)), -8);
    assert_eq!(ffi::little_int64_buf_get(ffi::little_int64_buf_new(-9)), -9);
    assert_eq!(ffi::little_uint16_buf_get(ffi::little_uint16_buf_new(10)), 10);
    assert_eq!(ffi::little_uint64_buf_get(ffi::little_uint64_buf_new(11)), 11);
    assert_eq!(ffi::big_uint64_buf_new(1).raw.to_ne_bytes(), [0, 0, 0, 0, 0, 0, 0, 1]);
}
