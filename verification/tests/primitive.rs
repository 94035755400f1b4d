use tygress::header::primitive::{U16, U32, U8};

#[test]
fn u8_round_trip() {
    for v in 0..=u8::MAX {
        assert_eq!(U8::new(v).get(), v);
    }
}

#[test]
fn u16_round_trip() {
    for v in [0u16, 1, 0x00FF, 0x0100, 0x1234, 0x8000, 0xFFFE, 0xFFFF] {
        assert_eq!(U16::new(v).get(), v);
    }
    // bytes are stored in network (big-endian) order
    assert_eq!(U16::new(0x1234).0, [0x12, 0x34]);
    assert_eq!(U16([0x12, 0x34]).get(), 0x1234);
}

#[test]
fn u32_round_trip() {
    for v in [0u32, 1, 0xFF, 0x100, 0x12345678, 0x80000000, 0xFFFFFFFF] {
        assert_eq!(U32::new(v).get(), v);
    }
    // bytes are stored in network (big-endian) order
    assert_eq!(U32::new(0x12345678).0, [0x12, 0x34, 0x56, 0x78]);
    assert_eq!(U32([0x12, 0x34, 0x56, 0x78]).get(), 0x12345678);
}
