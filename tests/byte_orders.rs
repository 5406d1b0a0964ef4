use arw_info::byte_orders::ByteOrders;

#[test]
fn byte_orders_test_be_parse_u16() {
    let bo = ByteOrders::BigEndian;
    assert_eq!(bo.parse_u16(&[1, 0]), 0x100);
}

#[test]
fn byte_orders_test_le_parse_u16() {
    let bo = ByteOrders::LittleEndian;
    assert_eq!(bo.parse_u16(&[0, 1]), 0x100);
}

#[test]
fn byte_orders_test_be_parse_u32() {
    let bo = ByteOrders::BigEndian;
    assert_eq!(bo.parse_u32(&[1, 0, 0, 0]), 0x1000000);
}

#[test]
fn byte_orders_test_le_parse_u32() {
    let bo = ByteOrders::LittleEndian;
    assert_eq!(bo.parse_u32(&[0, 0, 0, 1]), 0x1000000);
}

#[test]
fn test_be_u16_to_slice() {
    let bo = ByteOrders::BigEndian;
    assert_eq!(bo.u16_to_slice(0x100), [1, 0]);
}

#[test]
fn test_le_u16_to_slice() {
    let bo = ByteOrders::LittleEndian;
    assert_eq!(bo.u16_to_slice(0x100), [0, 1]);
}

#[test]
fn byte_orders_test_be_u32_to_slice() {
    let bo = ByteOrders::BigEndian;
    assert_eq!(bo.u32_to_slice(0x1000000), [1, 0, 0, 0]);
}

#[test]
fn byte_orders_test_le_u32_to_slice() {
    let bo = ByteOrders::LittleEndian;
    assert_eq!(bo.u32_to_slice(0x1000000), [0, 0, 0, 1]);
}
