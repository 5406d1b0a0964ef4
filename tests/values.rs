use arw_info::byte_order::ByteOrder;
use arw_info::field_type::{u16_to_field_type, FieldType, IFDFieldType};
use arw_info::format::{decimal_string, format_bytes, vec_to_string};
use arw_info::ifd_entry::IFDEntry;
use arw_info::tag::{lookup_generic, Tag};

fn entry(type_code: u16, count: u32, value_bytes: Vec<u8>, byte_order: ByteOrder) -> IFDEntry {
    let field_type: FieldType = u16_to_field_type(type_code);
    IFDEntry {
        tag: IFDEntry::tag_for_id(0x010F, false),
        field_type,
        count,
        value_offset: 0,
        value_bytes,
        byte_order,
    }
}

#[test]
fn field_type_lookup() {
    let long = u16_to_field_type(4);
    assert_eq!(long.name, "LONG");
    assert_eq!(long.width, 4);
    let unknown = u16_to_field_type(999);
    assert_eq!(unknown.name, "Unknown");
    assert_eq!(unknown.width, 1);
    assert_eq!(u16_to_field_type(0).name, "Unknown");
    assert_eq!(u16_to_field_type(13).name, "Unknown");
    let widths: Vec<u8> = (1..=12).map(|c| u16_to_field_type(c).width).collect();
    assert_eq!(widths, vec![1, 1, 2, 4, 8, 1, 1, 2, 4, 8, 4, 8]);
    assert_eq!(u16_to_field_type(10).name, "SRATIONAL");
}

#[test]
fn field_type_codes() {
    assert_eq!(IFDFieldType::from_u16(1), IFDFieldType::BYTE);
    assert_eq!(IFDFieldType::from_u16(12), IFDFieldType::DOUBLE);
    assert_eq!(IFDFieldType::from_u16(0), IFDFieldType::UNKNOWN);
    assert_eq!(IFDFieldType::from_u16(999), IFDFieldType::UNKNOWN);
    assert_eq!(IFDFieldType::SSHORT.width(), 2);
    assert_eq!(IFDFieldType::SSHORT.name(), "SSHORT");
}

#[test]
fn tag_lookup() {
    let exif: Tag = IFDEntry::tag_for_id(0x8769, false);
    assert_eq!(exif.id, 0x8769);
    assert!(exif.ifd);
    assert_eq!(exif.label, "Exif");
    let unknown = IFDEntry::tag_for_id(0xFFFF, false);
    assert_eq!(unknown.id, 0);
    assert!(!unknown.ifd);
    assert_eq!(unknown.label, "Unknown tag 65535");
    assert_eq!(IFDEntry::tag_for_id(7, true).label, "Unknown tag 7");
    assert!(lookup_generic(0x0111).is_some());
    assert!(lookup_generic(0x0001).is_none());
}

#[test]
fn decimal_text() {
    assert_eq!(decimal_string(0), "0");
    assert_eq!(decimal_string(9), "9");
    assert_eq!(decimal_string(10), "10");
    assert_eq!(decimal_string(1234567890), "1234567890");
    assert_eq!(decimal_string(u64::MAX), "18446744073709551615");
}

#[test]
fn list_text() {
    assert_eq!(vec_to_string(&vec![]), "");
    assert_eq!(vec_to_string(&vec![5]), "5");
    assert_eq!(vec_to_string(&vec![-5]), "-5");
    assert_eq!(vec_to_string(&vec![1, -2, 3]), "[1, -2, 3]");
    assert_eq!(vec_to_string(&vec![i64::MIN, i64::MAX]), "[-9223372036854775808, 9223372036854775807]");
}

#[test]
fn hex_dump_text() {
    assert_eq!(format_bytes(&vec![]), "");
    assert_eq!(format_bytes(&vec![0x01, 0xAB, 0xFF]), "01 AB FF ");
    let twenty_five: Vec<u8> = (0..25).collect();
    let shown = "00 01 02 03 04 05 06 07 08 09 0A 0B 0C 0D 0E 0F 10 11 12 13 ";
    assert_eq!(format_bytes(&twenty_five), shown);
    let thirty: Vec<u8> = (0..30).collect();
    assert_eq!(format_bytes(&thirty), shown);
    let thirty_one: Vec<u8> = (0..31).collect();
    assert_eq!(format_bytes(&thirty_one), format!("{}(truncated)", shown));
}

#[test]
fn ascii_value_decodes_text() {
    let e = entry(2, 4, b"abc\0".to_vec(), ByteOrder::LittleEndian);
    assert_eq!(e.ascii_value(), Some(String::from("abc\0")));
    assert_eq!(e.string_value(), "abc\0");
    let bad = entry(2, 2, vec![0xC3, 0x28], ByteOrder::LittleEndian);
    assert_eq!(bad.ascii_value(), None);
    assert_eq!(bad.string_value(), "C3 28 ");
    let not_ascii = entry(1, 4, b"abc\0".to_vec(), ByteOrder::LittleEndian);
    assert_eq!(not_ascii.ascii_value(), None);
    assert_eq!(not_ascii.string_value(), "61 62 63 00 ");
}

#[test]
fn typed_values_by_field_type() {
    let shorts = entry(3, 2, vec![0x01, 0x00, 0xFF, 0xFF], ByteOrder::BigEndian);
    assert_eq!(shorts.short_values(), Some(vec![256, 65535]));
    assert_eq!(shorts.signed_short_values(), None);
    assert_eq!(shorts.long_values(), None);
    assert_eq!(shorts.string_value(), "[256, 65535]");
    let sshorts = entry(8, 2, vec![0x01, 0x00, 0xFF, 0xFF], ByteOrder::BigEndian);
    assert_eq!(sshorts.signed_short_values(), Some(vec![256, -1]));
    assert_eq!(sshorts.string_value(), "[256, -1]");
    let slongs = entry(9, 1, vec![0x00, 0xFF, 0xFF, 0xFF], ByteOrder::LittleEndian);
    assert_eq!(slongs.signed_long_values(), Some(vec![-256]));
    assert_eq!(slongs.string_value(), "-256");
    let longs = entry(4, 1, vec![0x00, 0x00, 0x00, 0x01], ByteOrder::LittleEndian);
    assert_eq!(longs.long_values(), Some(vec![0x0100_0000]));
    assert_eq!(longs.string_value(), "16777216");
    let rational = entry(5, 1, vec![0, 0, 0, 1, 0, 0, 0, 2], ByteOrder::BigEndian);
    assert_eq!(rational.string_value(), "00 00 00 01 00 00 00 02 ");
}

#[test]
fn directory_flag_of_entries() {
    let mut e = entry(4, 1, vec![0, 0, 0, 0], ByteOrder::LittleEndian);
    assert!(!e.is_ifd());
    e.tag = IFDEntry::tag_for_id(0x927C, false);
    assert!(!e.tag.ifd);
    assert!(e.is_ifd());
    e.tag = IFDEntry::tag_for_id(0x014A, false);
    assert!(e.is_ifd());
}
