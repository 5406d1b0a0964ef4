use arw_info::byte_order::ByteOrder;

#[test]
fn byte_order_test_be_parse_u16() {
    let bo = ByteOrder::BigEndian;
    assert_eq!(bo.parse_u16(&[1, 0]), 0x100);
}

#[test]
fn byte_order_test_le_parse_u16() {
    let bo = ByteOrder::LittleEndian;
    assert_eq!(bo.parse_u16(&[0, 1]), 0x100);
}

#[test]
fn test_be_parse_i16() {
    let bo = ByteOrder::BigEndian;
    assert_eq!(bo.parse_i16(&[255, 0]), -256);
}

#[test]
fn test_le_parse_i16() {
    let bo = ByteOrder::LittleEndian;
    assert_eq!(bo.parse_i16(&[0, 255]), -256);
}

#[test]
fn byte_order_test_be_parse_u32() {
    let bo = ByteOrder::BigEndian;
    assert_eq!(bo.parse_u32(&[1, 0, 0, 0]), 0x1000000);
}

#[test]
fn byte_order_test_le_parse_u32() {
    let bo = ByteOrder::LittleEndian;
    assert_eq!(bo.parse_u32(&[0, 0, 0, 1]), 0x1000000);
}

#[test]
fn test_be_parse_i32() {
    let bo = ByteOrder::BigEndian;
    assert_eq!(bo.parse_i32(&[255, 255, 255, 0]), -256);
}

#[test]
fn test_le_parse_i32() {
    let bo = ByteOrder::LittleEndian;
    assert_eq!(bo.parse_i32(&[0, 255, 255, 255]), -256);
}

#[test]
fn byte_order_test_be_u32_to_slice() {
    let bo = ByteOrder::BigEndian;
    assert_eq!(bo.u32_to_slice(0x1000000), [1, 0, 0, 0]);
}

#[test]
fn byte_order_test_le_u32_to_slice() {
    let bo = ByteOrder::LittleEndian;
    assert_eq!(bo.u32_to_slice(0x1000000), [0, 0, 0, 1]);
}

#[test]
fn parse_u16_of_256_in_both_orders() {
    assert_eq!(ByteOrder::BigEndian.parse_u16(&[0x01, 0x00]), 256);
    assert_eq!(ByteOrder::LittleEndian.parse_u16(&[0x00, 0x01]), 256);
}

#[test]
fn u16_round_trip_in_both_orders() {
    for bo in [ByteOrder::LittleEndian, ByteOrder::BigEndian] {
        for v in [0u16, 1, 0xff, 0x100, 0x1234, 0x8000, 0xffff] {
            assert_eq!(bo.parse_u16(&bo.u16_to_slice(v)), v);
        }
        for b in [[0u8, 0], [0x12, 0x34], [0xff, 0x01], [0xff, 0xff]] {
            assert_eq!(bo.u16_to_slice(bo.parse_u16(&b)), b);
        }
    }
}

#[test]
fn u32_round_trip_in_both_orders() {
    for bo in [ByteOrder::LittleEndian, ByteOrder::BigEndian] {
        for v in [0u32, 1, 0xff, 0x1234_5678, 0x8000_0000, 0xffff_ffff] {
            assert_eq!(bo.parse_u32(&bo.u32_to_slice(v)), v);
        }
    }
    assert_eq!(ByteOrder::LittleEndian.u32_to_slice(0x1234_5678), [0x78, 0x56, 0x34, 0x12]);
    assert_eq!(ByteOrder::BigEndian.u32_to_slice(0x1234_5678), [0x12, 0x34, 0x56, 0x78]);
}

#[test]
fn signed_parse_boundaries() {
    let be = ByteOrder::BigEndian;
    let le = ByteOrder::LittleEndian;
    assert_eq!(be.parse_i16(&[0xFF, 0x00]), -256);
    assert_eq!(be.parse_i16(&[0x80, 0x00]), -32768);
    assert_eq!(be.parse_i16(&[0x7F, 0xFF]), 32767);
    assert_eq!(le.parse_i16(&[0x00, 0x80]), -32768);
    assert_eq!(be.parse_i16(&[0xFF, 0xFF]), -1);
    assert_eq!(be.parse_i32(&[0x80, 0x00, 0x00, 0x00]), i32::MIN);
    assert_eq!(le.parse_i32(&[0x00, 0x00, 0x00, 0x80]), i32::MIN);
    assert_eq!(be.parse_i32(&[0x7F, 0xFF, 0xFF, 0xFF]), i32::MAX);
    assert_eq!(be.parse_i32(&[0xFF, 0xFF, 0xFF, 0xFF]), -1);
}

#[test]
fn byte_order_names() {
    assert_eq!(ByteOrder::BigEndian.to_str(), "BE");
    assert_eq!(ByteOrder::LittleEndian.to_str(), "LE");
}
