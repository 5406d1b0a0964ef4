use arw_info::byte_order::ByteOrder;
use arw_info::header::Header;
use arw_info::ifd::IFD;
use arw_info::ifd_entry::IFDEntry;
use arw_info::source::DecodeError;

fn put_u16(buf: &mut Vec<u8>, v: u16) {
    buf.extend_from_slice(&v.to_le_bytes());
}

fn put_u32(buf: &mut Vec<u8>, v: u32) {
    buf.extend_from_slice(&v.to_le_bytes());
}

fn put_entry(buf: &mut Vec<u8>, tag: u16, field_type: u16, count: u32, value: u32) {
    put_u16(buf, tag);
    put_u16(buf, field_type);
    put_u32(buf, count);
    put_u32(buf, value);
}

/// A little-endian file: the header, then a root directory at 8 with one
/// Exif pointer to `child_offset`, then at 26 a directory with one SHORT.
fn two_level_file(child_offset: u32) -> Vec<u8> {
    let mut f = vec![b'I', b'I'];
    put_u16(&mut f, 42);
    put_u32(&mut f, 8);
    put_u16(&mut f, 1);
    put_entry(&mut f, 0x8769, 4, 1, child_offset);
    put_u32(&mut f, 0);
    assert_eq!(f.len(), 26);
    put_u16(&mut f, 1);
    put_entry(&mut f, 0x0112, 3, 1, 6);
    put_u32(&mut f, 0);
    f
}

#[test]
fn two_level_file_gives_root_then_child() {
    let f = two_level_file(26);
    let h = match Header::new(&f) {
        Ok(h) => h,
        Err(e) => panic!("decode failed: {:?}", e),
    };
    assert_eq!(h.byte_order, ByteOrder::LittleEndian);
    assert_eq!(h.magic_number, 42);
    assert_eq!(h.ifd_offset, 8);
    assert_eq!(h.ifds.len(), 2);
    assert_eq!(h.ifds[0].offset, 8);
    assert_eq!(h.ifds[0].ifd_type, "Main");
    assert_eq!(h.ifds[0].entries_count, 1);
    assert_eq!(h.ifds[0].entries[0].tag.label, "Exif");
    assert!(h.ifds[0].entries[0].is_ifd());
    assert_eq!(h.ifds[1].offset, 26);
    assert_eq!(h.ifds[1].ifd_type, "Exif");
    assert_eq!(h.ifds[1].next_ifd_offset, 0);
    assert_eq!(h.ifds[1].entries[0].tag.label, "Orientation");
    assert_eq!(h.ifds[1].entries[0].short_values(), Some(vec![6, 0]));
}

#[test]
fn sub_directory_pointing_back_at_root_is_cyclic() {
    let f = two_level_file(8);
    assert!(matches!(Header::new(&f), Err(DecodeError::CyclicReference)));
}

#[test]
fn chain_pointing_back_at_itself_is_cyclic() {
    let mut f = vec![b'M', b'M', 0, 42, 0, 0, 0, 8];
    f.extend_from_slice(&[0, 0]);
    f.extend_from_slice(&[0, 0, 0, 8]);
    assert!(matches!(Header::new(&f), Err(DecodeError::CyclicReference)));
}

#[test]
fn sibling_chain_keeps_its_type() {
    let mut f = vec![b'M', b'M', 0, 42, 0, 0, 0, 8];
    f.extend_from_slice(&[0, 0]);
    f.extend_from_slice(&[0, 0, 0, 14]);
    f.extend_from_slice(&[0, 0]);
    f.extend_from_slice(&[0, 0, 0, 0]);
    let h = match Header::new(&f) {
        Ok(h) => h,
        Err(e) => panic!("decode failed: {:?}", e),
    };
    assert_eq!(h.byte_order, ByteOrder::BigEndian);
    assert_eq!(h.ifds.len(), 2);
    assert_eq!(h.ifds[0].next_ifd_offset, 14);
    assert_eq!(h.ifds[1].offset, 14);
    assert_eq!(h.ifds[1].ifd_type, "Main");
}

#[test]
fn short_header_is_truncated() {
    let f = vec![b'I', b'I', 42, 0, 8, 0, 0];
    assert!(matches!(Header::new(&f), Err(DecodeError::TruncatedRead)));
    assert!(matches!(Header::new(&[]), Err(DecodeError::TruncatedRead)));
}

#[test]
fn unknown_byte_order_is_rejected() {
    let mut f = two_level_file(26);
    f[1] = b'M';
    assert!(matches!(Header::new(&f), Err(DecodeError::UnknownByteOrder)));
    f[0] = b'X';
    f[1] = b'X';
    assert!(matches!(Header::new(&f), Err(DecodeError::UnknownByteOrder)));
}

#[test]
fn directory_past_the_end_is_a_seek_failure() {
    let mut f = two_level_file(26);
    f[4] = 200;
    assert!(matches!(Header::new(&f), Err(DecodeError::SeekFailure)));
}

#[test]
fn cut_directory_is_truncated() {
    let f = two_level_file(26);
    assert!(matches!(Header::new(&f[..20]), Err(DecodeError::TruncatedRead)));
    assert!(matches!(Header::new(&f[..40]), Err(DecodeError::TruncatedRead)));
}

#[test]
fn inline_long_reads_no_other_byte() {
    // count 1 of LONG: the value field is the value, even though as an
    // offset it would lie far past the end of the file
    let mut f = Vec::new();
    put_entry(&mut f, 0x0100, 4, 1, 0xDEAD_BEEF);
    let e = match IFDEntry::new(&f, 0, ByteOrder::LittleEndian, &String::from("Main")) {
        Ok(e) => e,
        Err(err) => panic!("decode failed: {:?}", err),
    };
    assert_eq!(e.count, 1);
    assert_eq!(e.value_offset, 0xDEAD_BEEF);
    assert_eq!(e.value_bytes, vec![0xEF, 0xBE, 0xAD, 0xDE]);
    assert_eq!(e.long_values(), Some(vec![0xDEAD_BEEF]));
    assert_eq!(e.field_type.name, "LONG");
    assert_eq!(e.field_type.width, 4);
}

#[test]
fn two_longs_are_read_at_their_offset() {
    let mut f = Vec::new();
    put_entry(&mut f, 0x0100, 4, 2, 12);
    put_u32(&mut f, 7);
    put_u32(&mut f, 0x0102_0304);
    let e = match IFDEntry::new(&f, 0, ByteOrder::LittleEndian, &String::from("Main")) {
        Ok(e) => e,
        Err(err) => panic!("decode failed: {:?}", err),
    };
    assert_eq!(e.value_bytes, vec![7, 0, 0, 0, 4, 3, 2, 1]);
    assert_eq!(e.long_values(), Some(vec![7, 0x0102_0304]));
    assert_eq!(e.string_value(), "[7, 16909060]");
    // the same entry with its values cut short
    assert!(matches!(
        IFDEntry::new(&f[..16], 0, ByteOrder::LittleEndian, &String::from("Main")),
        Err(DecodeError::TruncatedRead)
    ));
    // and with an offset past the end
    let mut g = Vec::new();
    put_entry(&mut g, 0x0100, 4, 2, 100);
    assert!(matches!(
        IFDEntry::new(&g, 0, ByteOrder::LittleEndian, &String::from("Main")),
        Err(DecodeError::SeekFailure)
    ));
}

#[test]
fn value_bytes_inline_and_indirect() {
    let data = [9u8, 8, 7, 6, 5, 4, 3, 2, 1];
    let inline = IFDEntry::value_bytes(&[], 4, &ByteOrder::BigEndian, 0x0A0B_0C0D);
    assert_eq!(inline, Ok(vec![0x0A, 0x0B, 0x0C, 0x0D]));
    let read = IFDEntry::value_bytes(&data, 5, &ByteOrder::BigEndian, 2);
    assert_eq!(read, Ok(vec![7, 6, 5, 4, 3]));
    let short = IFDEntry::value_bytes(&data, 5, &ByteOrder::BigEndian, 6);
    assert_eq!(short, Err(DecodeError::TruncatedRead));
}

#[test]
fn entry_record_cut_short_is_truncated() {
    let f = [0u8; 11];
    assert!(matches!(
        IFDEntry::new(&f, 0, ByteOrder::LittleEndian, &String::from("Main")),
        Err(DecodeError::TruncatedRead)
    ));
    assert!(matches!(
        IFDEntry::new(&f, 12, ByteOrder::LittleEndian, &String::from("Main")),
        Err(DecodeError::SeekFailure)
    ));
}

#[test]
fn maker_note_directory_uses_maker_tags() {
    let mut f = Vec::new();
    put_entry(&mut f, 0xB001, 3, 1, 0x0115);
    let maker = IFDEntry::new(&f, 0, ByteOrder::LittleEndian, &String::from("MakerNote"));
    let generic = IFDEntry::new(&f, 0, ByteOrder::LittleEndian, &String::from("Exif"));
    match (maker, generic) {
        (Ok(m), Ok(g)) => {
            assert_eq!(m.tag.label, "SonyModelID");
            assert_eq!(m.tag.id, 0xB001);
            assert_eq!(g.tag.label, "Unknown tag 45057");
            assert_eq!(g.tag.id, 0);
            assert_eq!(g.tag.description, "");
        },
        _ => panic!("decode failed"),
    }
}

#[test]
fn maker_note_entry_points_to_a_directory() {
    let mut f = vec![b'I', b'I'];
    put_u16(&mut f, 42);
    put_u32(&mut f, 8);
    put_u16(&mut f, 2);
    put_entry(&mut f, 0x927C, 7, 18, 38);
    put_entry(&mut f, 0x8825, 4, 1, 0);
    put_u32(&mut f, 0);
    assert_eq!(f.len(), 38);
    put_u16(&mut f, 1);
    put_entry(&mut f, 0xB001, 3, 1, 0x0115);
    put_u32(&mut f, 0);
    let h = match Header::new(&f) {
        Ok(h) => h,
        Err(e) => panic!("decode failed: {:?}", e),
    };
    let root: &IFD = &h.ifds[0];
    let subs = root.sub_ifd_offsets();
    // the GPS pointer at offset 0 points nowhere
    assert_eq!(subs.len(), 1);
    assert_eq!(subs[0].offset, 38);
    assert_eq!(subs[0].tag_label, "MakerNote");
    assert_eq!(h.ifds.len(), 2);
    assert_eq!(h.ifds[1].ifd_type, "MakerNote");
    assert_eq!(h.ifds[1].entries[0].tag.label, "SonyModelID");
    assert_eq!(h.ifds[1].entries[0].string_value(), "[277, 0]");
}

#[test]
fn breadth_first_discovery_order() {
    // root at 8 with sub-directories at 56 and 74 and the next directory of
    // its chain at 38, which points to a sub-directory at 80; the root's
    // sub-directories come before the next one of the chain
    let mut f = vec![b'I', b'I'];
    put_u16(&mut f, 42);
    put_u32(&mut f, 8);
    put_u16(&mut f, 2);
    put_entry(&mut f, 0x8769, 4, 1, 56);
    put_entry(&mut f, 0x8825, 4, 1, 74);
    put_u32(&mut f, 38);
    assert_eq!(f.len(), 38);
    put_u16(&mut f, 1);
    put_entry(&mut f, 0xA005, 4, 1, 80);
    put_u32(&mut f, 0);
    assert_eq!(f.len(), 56);
    put_u16(&mut f, 1);
    put_entry(&mut f, 0x829A, 3, 1, 1);
    put_u32(&mut f, 0);
    assert_eq!(f.len(), 74);
    put_u16(&mut f, 0);
    put_u32(&mut f, 0);
    assert_eq!(f.len(), 80);
    put_u16(&mut f, 0);
    put_u32(&mut f, 0);
    let h = match Header::new(&f) {
        Ok(h) => h,
        Err(e) => panic!("decode failed: {:?}", e),
    };
    let offsets: Vec<u32> = h.ifds.iter().map(|d| d.offset).collect();
    assert_eq!(offsets, vec![8, 56, 74, 38, 80]);
    let types: Vec<&str> = h.ifds.iter().map(|d| d.ifd_type.as_str()).collect();
    assert_eq!(types, vec!["Main", "Exif", "GPS", "Main", "Interoperability"]);
}

#[test]
fn shared_sub_directory_is_rejected() {
    let mut f = vec![b'I', b'I'];
    put_u16(&mut f, 42);
    put_u32(&mut f, 8);
    put_u16(&mut f, 2);
    put_entry(&mut f, 0x8769, 4, 1, 38);
    put_entry(&mut f, 0x8825, 4, 1, 38);
    put_u32(&mut f, 0);
    assert_eq!(f.len(), 38);
    put_u16(&mut f, 0);
    put_u32(&mut f, 0);
    assert!(matches!(Header::new(&f), Err(DecodeError::CyclicReference)));
}
