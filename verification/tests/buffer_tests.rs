use endian::buffer::{BigEndianBuf, EndianBuf, LittleEndianBuf, NativeEndianBuf};
use endian::conversion::{native_to_big, native_to_little};

#[test]
fn big_buf_roundtrip() {
    let buf: BigEndianBuf<u32> = BigEndianBuf::new(0xDEAD_BEEF);
    assert_eq!(buf.get(), 0xDEAD_BEEF);
}

#[test]
fn little_buf_roundtrip() {
    let buf: LittleEndianBuf<i64> = LittleEndianBuf::new(-1_000_000);
    assert_eq!(buf.get(), -1_000_000);
}

#[test]
fn big_buf_bytes_on_little_endian() {
    // On a little-endian host, 0x01020304u32 stored as big-endian
    // should occupy bytes [0x01, 0x02, 0x03, 0x04].
    if u16::from_ne_bytes([1, 0]) == 1 {
        let buf: BigEndianBuf<u32> = BigEndianBuf::new(0x01020304u32);
        let bytes: [u8; 4] = buf.get().to_be_bytes();
        assert_eq!(bytes, [0x01, 0x02, 0x03, 0x04]);
    }
}

#[test]
fn buf_eq_and_ord() {
    let a: BigEndianBuf<i32> = BigEndianBuf::new(10);
    let b: BigEndianBuf<i32> = BigEndianBuf::new(20);
    assert!(a < b);
    assert_eq!(a, BigEndianBuf::new(10));
}

#[test]
fn buf_set() {
    let mut buf: LittleEndianBuf<u16> = LittleEndianBuf::new(1);
    buf.set(0xABCD);
    assert_eq!(buf.get(), 0xABCD);
}

#[test]
fn buf_size_matches_inner() {
    assert_eq!(std::mem::size_of::<BigEndianBuf<u32>>(), std::mem::size_of::<u32>());
    assert_eq!(std::mem::size_of::<LittleEndianBuf<i64>>(), std::mem::size_of::<i64>());
}

#[test]
fn buf_stored_bytes_are_in_target_order() {
    let big: BigEndianBuf<u32> = EndianBuf::new(0x0102_0304);
    assert_eq!(big.data().to_ne_bytes(), [1, 2, 3, 4]);
    assert_eq!(*big.data(), native_to_big(0x0102_0304u32));
    let little: LittleEndianBuf<u32> = EndianBuf::new(0x0102_0304);
    assert_eq!(little.data().to_ne_bytes(), [4, 3, 2, 1]);
    assert_eq!(*little.data(), native_to_little(0x0102_0304u32));
    let native: NativeEndianBuf<u32> = EndianBuf::new(0x0102_0304);
    assert_eq!(*native.data(), 0x0102_0304);
}

#[test]
fn buf_data_mut_writes_stored_bytes() {
    let mut buf: BigEndianBuf<u16> = EndianBuf::new(0);
    *buf.data_mut() = u16::from_ne_bytes([0x12, 0x34]);
    assert_eq!(buf.get(), 0x1234);
}

#[test]
fn buf_order_uses_native_values() {
    // 256 is stored as 0x00000100 big-endian, which as a native word on a
    // little-endian host is larger than 1 stored big-endian; ordering must
    // still follow the native values.
    let a: BigEndianBuf<u32> = EndianBuf::new(1);
    let b: BigEndianBuf<u32> = EndianBuf::new(256);
    assert!(a < b);
    assert!(b > a);
    assert!(a != b);
    let c: LittleEndianBuf<i16> = EndianBuf::new(-3);
    let d: LittleEndianBuf<i16> = EndianBuf::new(2);
    assert!(c < d);
}

#[test]
fn buf_default_and_clone() {
    let d: BigEndianBuf<u64> = Default::default();
    assert_eq!(d.get(), 0);
    let e = d.clone();
    assert_eq!(e, d);
}

#[test]
fn buf_min_max_by_native_value() {
    let a: BigEndianBuf<u32> = EndianBuf::new(1);
    let b: BigEndianBuf<u32> = EndianBuf::new(256);
    assert_eq!(a.min(b).get(), 1);
    assert_eq!(a.max(b).get(), 256);
}
