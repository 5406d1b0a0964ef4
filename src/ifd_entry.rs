//! One directory entry: a fixed 12-byte record that names a tag, a field
//! type, a count of values and the values themselves or their offset.

use crate::byte_order::{signed16, signed32, u16_of, u32_bytes, u32_of, ByteOrder};
use crate::field_type::{field_type_view, u16_to_field_type, FieldType, FieldTypeView};
use crate::format::{decimal_string, format_bytes, hex_dump, list_text, vec_to_string};
use crate::source::{read_at, read_exact, DecodeError};
use crate::tag::{
    lookup_generic, lookup_maker_note, maker_note_label, tag_view, Tag, TagView,
};
use vstd::prelude::*;
use vstd::slice::slice_to_vec;
use vstd::utf8::{decode_utf8, valid_utf8};

verus! {

/// The size in bytes of one directory entry.
pub const ENTRY_SIZE: u64 = 12;

/// A decoded directory entry.
pub struct IFDEntry {
    pub tag: Tag,
    pub field_type: FieldType,
    /// The number of values of `field_type`.
    pub count: u32,
    /// The values themselves when they fit in four bytes, else their offset.
    pub value_offset: u32,
    /// The bytes of the values.
    pub value_bytes: Vec<u8>,
    pub byte_order: ByteOrder,
}

/// The abstract value of an `IFDEntry`.
pub ghost struct IFDEntryView {
    pub tag: TagView,
    pub field_type: FieldTypeView,
    pub count: u32,
    pub value_offset: u32,
    pub value_bytes: Seq<u8>,
    pub byte_order: ByteOrder,
}

impl View for IFDEntry {
    type V = IFDEntryView;

    open spec fn view(&self) -> IFDEntryView {
        IFDEntryView {
            tag: self.tag@,
            field_type: self.field_type@,
            count: self.count,
            value_offset: self.value_offset,
            value_bytes: self.value_bytes@,
            byte_order: self.byte_order,
        }
    }
}

/// The bytes of an entry's values, `byte_width` of them: when they fit in
/// four bytes they are the value field itself, written back in the file's
/// byte order, and nothing more is read; else they are read from the file at
/// the offset that the value field holds.
pub open spec fn value_bytes_at(data: Seq<u8>, byte_width: int, order: ByteOrder, value_offset: u32) -> Result<Seq<u8>, DecodeError> {
    if byte_width <= 4 {
        Ok(u32_bytes(order.is_little(), value_offset as int))
    } else {
        read_at(data, value_offset as int, byte_width)
    }
}

/// The entry whose record starts at `pos`, in a directory that is the maker
/// note when `maker_note` holds.
pub open spec fn entry_at(data: Seq<u8>, pos: int, order: ByteOrder, maker_note: bool) -> Result<IFDEntryView, DecodeError> {
    match read_at(data, pos, ENTRY_SIZE as int) {
        Err(e) => Err(e),
        Ok(rec) => {
            let little = order.is_little();
            let tag_id = u16_of(little, rec.subrange(0, 2)) as u16;
            let code = u16_of(little, rec.subrange(2, 4)) as u16;
            let count = u32_of(little, rec.subrange(4, 8)) as u32;
            let value_offset = u32_of(little, rec.subrange(8, 12)) as u32;
            let field_type = field_type_view(code);
            match value_bytes_at(data, count * field_type.width, order, value_offset) {
                Err(e) => Err(e),
                Ok(value_bytes) => Ok(
                    IFDEntryView {
                        tag: tag_view(tag_id, maker_note),
                        field_type,
                        count,
                        value_offset,
                        value_bytes,
                        byte_order: order,
                    },
                ),
            }
        },
    }
}

/// Whether an entry points to a sub-directory: its tag says so, or it is the
/// maker note.
pub open spec fn is_dir_entry(e: IFDEntryView) -> bool {
    e.tag.ifd || e.tag.label == maker_note_label()
}

/// Whether a directory of type `ifd_type` is the maker note.
pub fn is_maker_note(ifd_type: &String) -> (r: bool)
    ensures
        r == (ifd_type@ == maker_note_label()),
{
    *ifd_type == String::from_str("MakerNote")
}

/// The value of one chunk of `width` bytes (2 or 4), read as a two's
/// complement integer when `signed` holds.
pub open spec fn chunk_value(little: bool, c: Seq<u8>, width: int, signed: bool) -> int {
    if width == 2 {
        if signed {
            signed16(u16_of(little, c))
        } else {
            u16_of(little, c)
        }
    } else {
        if signed {
            signed32(u32_of(little, c))
        } else {
            u32_of(little, c)
        }
    }
}

/// The values held in `b`, cut into chunks of `width` bytes.
pub open spec fn chunk_values(little: bool, b: Seq<u8>, width: int, signed: bool) -> Seq<int> {
    Seq::new(
        (b.len() as int / width) as nat,
        |i: int| chunk_value(little, b.subrange(width * i, width * i + width), width, signed),
    )
}

/// How an entry's value is shown: ASCII as its text, the integer types as a
/// list of numbers, anything else (and ASCII that is not valid UTF-8) as a
/// hex dump.
pub open spec fn display_text(e: IFDEntryView) -> Seq<char> {
    let name = e.field_type.name;
    let little = e.byte_order.is_little();
    let b = e.value_bytes;
    if name == "ASCII"@ && valid_utf8(b) {
        decode_utf8(b)
    } else if name == "LONG"@ {
        list_text(chunk_values(little, b, 4, false))
    } else if name == "SHORT"@ {
        list_text(chunk_values(little, b, 2, false))
    } else if name == "SLONG"@ {
        list_text(chunk_values(little, b, 4, true))
    } else if name == "SSHORT"@ {
        list_text(chunk_values(little, b, 2, true))
    } else {
        hex_dump(b)
    }
}

/// Relies on String::from_utf8: it accepts exactly the valid UTF-8 byte
/// sequences and decodes them to their characters.
#[verifier::external_body]
fn utf8_string(bytes: Vec<u8>) -> (r: Option<String>)
    ensures
        r is Some <==> valid_utf8(bytes@),
        r matches Some(s) ==> s@ == decode_utf8(bytes@),
{
    match String::from_utf8(bytes) {
        Ok(s) => Some(s),
        Err(_) => None,
    }
}

/// The values held in `bytes`, cut into chunks of `width` bytes, as `i64`.
fn chunk_ints(order: ByteOrder, bytes: &[u8], width: usize, signed: bool) -> (r: Vec<i64>)
    requires
        width == 2 || width == 4,
    ensures
        r@.map_values(|v: i64| v as int) == chunk_values(order.is_little(), bytes@, width as int, signed),
{
    let ghost little = order.is_little();
    let mut values: Vec<i64> = Vec::new();
    let mut pos: usize = 0;
    while bytes.len() - pos >= width
        invariant
            width == 2 || width == 4,
            little == order.is_little(),
            pos <= bytes@.len(),
            pos == width * values@.len(),
            forall|k: int|
                0 <= k < values@.len() ==> #[trigger] values@[k] as int == chunk_value(
                    little,
                    bytes@.subrange(width * k, width * k + width),
                    width as int,
                    signed,
                ),
        decreases bytes@.len() - pos,
    {
        let chunk = &bytes[pos..pos + width];
        let v: i64 = if width == 2 {
            if signed {
                order.parse_i16(chunk) as i64
            } else {
                order.parse_u16(chunk) as i64
            }
        } else {
            if signed {
                order.parse_i32(chunk) as i64
            } else {
                order.parse_u32(chunk) as i64
            }
        };
        proof {
            let n = values@.len() as int;
            assert(chunk@ == bytes@.subrange(width * n, width * n + width));
            assert(v as int == chunk_value(little, chunk@, width as int, signed));
        }
        values.push(v);
        pos = pos + width;
    }
    proof {
        let n = values@.len() as int;
        let w = width as int;
        let len = bytes@.len() as int;
        assert(len / w == n) by (nonlinear_arith)
            requires
                w == 2 || w == 4,
                w * n <= len < w * n + w,
        ;
        assert(values@.map_values(|v: i64| v as int) =~= chunk_values(little, bytes@, w, signed));
    }
    values
}

/// A value of at most four bytes comes from the entry's own record: any file
/// that holds the same record at the same position gives the same entry, so
/// no other byte of the file is read.
pub proof fn lemma_inline_value_reads_only_record(data: Seq<u8>, other: Seq<u8>, pos: int, order: ByteOrder, maker_note: bool)
    requires
        0 <= pos,
        pos + ENTRY_SIZE <= data.len(),
        pos + ENTRY_SIZE <= other.len(),
        data.subrange(pos, pos + ENTRY_SIZE) == other.subrange(pos, pos + ENTRY_SIZE),
        entry_at(data, pos, order, maker_note) matches Ok(e) && e.count * e.field_type.width <= 4,
    ensures
        entry_at(other, pos, order, maker_note) == entry_at(data, pos, order, maker_note),
        entry_at(data, pos, order, maker_note) matches Ok(e) && e.value_bytes == u32_bytes(
            order.is_little(),
            e.value_offset as int,
        ),
{
}

/// A value of more than four bytes is read from the file: it is exactly the
/// bytes at the offset that the value field holds.
pub proof fn lemma_long_value_read_at_offset(data: Seq<u8>, pos: int, order: ByteOrder, maker_note: bool)
    requires
        entry_at(data, pos, order, maker_note) matches Ok(e) && e.count * e.field_type.width > 4,
    ensures
        entry_at(data, pos, order, maker_note) matches Ok(e) && {
            let n = e.count * e.field_type.width;
            &&& e.value_offset + n <= data.len()
            &&& e.value_bytes == data.subrange(e.value_offset as int, e.value_offset + n)
        },
{
}

impl IFDEntry {
    /// Decodes the entry whose record starts at `offset`; `ifd_type` is the
    /// type of the enclosing directory, which selects the tag table.
    pub fn new(data: &[u8], offset: u64, byte_order: ByteOrder, ifd_type: &String) -> (r: Result<IFDEntry, DecodeError>)
        ensures
            match r {
                Ok(e) => entry_at(data@, offset as int, byte_order, ifd_type@ == maker_note_label())
                    == Ok::<IFDEntryView, DecodeError>(e@),
                Err(err) => entry_at(data@, offset as int, byte_order, ifd_type@ == maker_note_label())
                    == Err::<IFDEntryView, DecodeError>(err),
            },
    {
        let buf = match read_exact(data, offset, ENTRY_SIZE) {
            Ok(b) => b,
            Err(e) => return Err(e),
        };
        let tag_id = byte_order.parse_u16(&buf[0..2]);
        let field_type = u16_to_field_type(byte_order.parse_u16(&buf[2..4]));
        let count = byte_order.parse_u32(&buf[4..8]);
        let value_offset = byte_order.parse_u32(&buf[8..12]);
        let ghost (c, w) = (count as int, field_type.width as int);
        proof {
            assert(c * w <= 0xffff_ffff * 0xff) by (nonlinear_arith)
                requires
                    0 <= c <= 0xffff_ffff,
                    0 <= w <= 0xff,
            ;
        }
        let byte_width = count as u64 * field_type.width as u64;
        let value_bytes = match IFDEntry::value_bytes(data, byte_width, &byte_order, value_offset) {
            Ok(v) => v,
            Err(e) => return Err(e),
        };
        let tag = IFDEntry::tag_for_id(tag_id, is_maker_note(ifd_type));
        Ok(IFDEntry { tag, field_type, count, value_offset, value_bytes, byte_order })
    }

    /// The tag of `id`, from the maker-note table when `maker_note` holds and
    /// from the generic table otherwise; an unknown id gives the placeholder
    /// "Unknown tag <id>" with id 0, never an error.
    pub fn tag_for_id(id: u16, maker_note: bool) -> (r: Tag)
        ensures
            r@ == tag_view(id, maker_note),
    {
        let found = if maker_note {
            lookup_maker_note(id)
        } else {
            lookup_generic(id)
        };
        match found {
            Some(t) => t,
            None => {
                let mut label = String::from_str("Unknown tag ");
                let digits = decimal_string(id as u64);
                label.append(digits.as_str());
                Tag { id: 0, ifd: false, label, description: String::new() }
            },
        }
    }

    /// The `count` bytes of an entry's values: the value field itself, in
    /// `byte_order`, when they fit in four bytes, without reading the file;
    /// else `count` bytes read at `value_offset`.
    pub fn value_bytes(data: &[u8], count: u64, byte_order: &ByteOrder, value_offset: u32) -> (r: Result<Vec<u8>, DecodeError>)
        ensures
            match r {
                Ok(v) => value_bytes_at(data@, count as int, *byte_order, value_offset)
                    == Ok::<Seq<u8>, DecodeError>(v@),
                Err(e) => value_bytes_at(data@, count as int, *byte_order, value_offset)
                    == Err::<Seq<u8>, DecodeError>(e),
            },
    {
        if count <= 4 {
            let field = byte_order.u32_to_slice(value_offset);
            let v = vec![field[0], field[1], field[2], field[3]];
            proof {
                assert(v@ =~= field@);
            }
            Ok(v)
        } else {
            match read_exact(data, value_offset as u64, count) {
                Ok(s) => Ok(slice_to_vec(s)),
                Err(e) => Err(e),
            }
        }
    }

    fn has_type(&self, name: &str) -> (r: bool)
        ensures
            r == (self.field_type.name@ == name@),
    {
        self.field_type.name == String::from_str(name)
    }

    /// The text of an ASCII entry, when its bytes are valid UTF-8; `None`
    /// for other field types and for bytes that are not UTF-8.
    pub fn ascii_value(&self) -> (r: Option<String>)
        ensures
            r is Some <==> self.field_type.name@ == "ASCII"@ && valid_utf8(self.value_bytes@),
            r matches Some(s) ==> s@ == decode_utf8(self.value_bytes@),
    {
        if !self.has_type("ASCII") {
            return None;
        }
        utf8_string(slice_to_vec(self.value_bytes.as_slice()))
    }

    /// The values as `u32`s when the field type is LONG, else `None`.
    pub fn long_values(&self) -> (r: Option<Vec<u32>>)
        ensures
            r is Some <==> self.field_type.name@ == "LONG"@,
            r matches Some(v) ==> v@.map_values(|x: u32| x as int) == chunk_values(
                self.byte_order.is_little(),
                self.value_bytes@,
                4,
                false,
            ),
    {
        if !self.has_type("LONG") {
            return None;
        }
        let ghost little = self.byte_order.is_little();
        let bytes = self.value_bytes.as_slice();
        let mut values: Vec<u32> = Vec::new();
        let mut pos: usize = 0;
        while bytes.len() - pos >= 4
            invariant
                bytes@ == self.value_bytes@,
                little == self.byte_order.is_little(),
                pos <= bytes@.len(),
                pos == 4 * values@.len(),
                forall|k: int|
                    0 <= k < values@.len() ==> #[trigger] values@[k] as int == chunk_value(
                        little,
                        bytes@.subrange(4 * k, 4 * k + 4),
                        4,
                        false,
                    ),
            decreases bytes@.len() - pos,
        {
            values.push(self.byte_order.parse_u32(&bytes[pos..pos + 4]));
            pos = pos + 4;
        }
        proof {
            let n = values@.len() as int;
            let len = bytes@.len() as int;
            assert(len / 4 == n);
            assert(values@.map_values(|x: u32| x as int) =~= chunk_values(little, bytes@, 4, false));
        }
        Some(values)
    }

    /// The values as `u16`s when the field type is SHORT, else `None`.
    pub fn short_values(&self) -> (r: Option<Vec<u16>>)
        ensures
            r is Some <==> self.field_type.name@ == "SHORT"@,
            r matches Some(v) ==> v@.map_values(|x: u16| x as int) == chunk_values(
                self.byte_order.is_little(),
                self.value_bytes@,
                2,
                false,
            ),
    {
        if !self.has_type("SHORT") {
            return None;
        }
        let ghost little = self.byte_order.is_little();
        let bytes = self.value_bytes.as_slice();
        let mut values: Vec<u16> = Vec::new();
        let mut pos: usize = 0;
        while bytes.len() - pos >= 2
            invariant
                bytes@ == self.value_bytes@,
                little == self.byte_order.is_little(),
                pos <= bytes@.len(),
                pos == 2 * values@.len(),
                forall|k: int|
                    0 <= k < values@.len() ==> #[trigger] values@[k] as int == chunk_value(
                        little,
                        bytes@.subrange(2 * k, 2 * k + 2),
                        2,
                        false,
                    ),
            decreases bytes@.len() - pos,
        {
            values.push(self.byte_order.parse_u16(&bytes[pos..pos + 2]));
            pos = pos + 2;
        }
        proof {
            let n = values@.len() as int;
            let len = bytes@.len() as int;
            assert(len / 2 == n);
            assert(values@.map_values(|x: u16| x as int) =~= chunk_values(little, bytes@, 2, false));
        }
        Some(values)
    }

    /// The values as `i32`s when the field type is SLONG, else `None`.
    pub fn signed_long_values(&self) -> (r: Option<Vec<i32>>)
        ensures
            r is Some <==> self.field_type.name@ == "SLONG"@,
            r matches Some(v) ==> v@.map_values(|x: i32| x as int) == chunk_values(
                self.byte_order.is_little(),
                self.value_bytes@,
                4,
                true,
            ),
    {
        if !self.has_type("SLONG") {
            return None;
        }
        let ghost little = self.byte_order.is_little();
        let bytes = self.value_bytes.as_slice();
        let mut values: Vec<i32> = Vec::new();
        let mut pos: usize = 0;
        while bytes.len() - pos >= 4
            invariant
                bytes@ == self.value_bytes@,
                little == self.byte_order.is_little(),
                pos <= bytes@.len(),
                pos == 4 * values@.len(),
                forall|k: int|
                    0 <= k < values@.len() ==> #[trigger] values@[k] as int == chunk_value(
                        little,
                        bytes@.subrange(4 * k, 4 * k + 4),
                        4,
                        true,
                    ),
            decreases bytes@.len() - pos,
        {
            values.push(self.byte_order.parse_i32(&bytes[pos..pos + 4]));
            pos = pos + 4;
        }
        proof {
            let n = values@.len() as int;
            let len = bytes@.len() as int;
            assert(len / 4 == n);
            assert(values@.map_values(|x: i32| x as int) =~= chunk_values(little, bytes@, 4, true));
        }
        Some(values)
    }

    /// The values as `i16`s when the field type is SSHORT, else `None`.
    pub fn signed_short_values(&self) -> (r: Option<Vec<i16>>)
        ensures
            r is Some <==> self.field_type.name@ == "SSHORT"@,
            r matches Some(v) ==> v@.map_values(|x: i16| x as int) == chunk_values(
                self.byte_order.is_little(),
                self.value_bytes@,
                2,
                true,
            ),
    {
        if !self.has_type("SSHORT") {
            return None;
        }
        let ghost little = self.byte_order.is_little();
        let bytes = self.value_bytes.as_slice();
        let mut values: Vec<i16> = Vec::new();
        let mut pos: usize = 0;
        while bytes.len() - pos >= 2
            invariant
                bytes@ == self.value_bytes@,
                little == self.byte_order.is_little(),
                pos <= bytes@.len(),
                pos == 2 * values@.len(),
                forall|k: int|
                    0 <= k < values@.len() ==> #[trigger] values@[k] as int == chunk_value(
                        little,
                        bytes@.subrange(2 * k, 2 * k + 2),
                        2,
                        true,
                    ),
            decreases bytes@.len() - pos,
        {
            values.push(self.byte_order.parse_i16(&bytes[pos..pos + 2]));
            pos = pos + 2;
        }
        proof {
            let n = values@.len() as int;
            let len = bytes@.len() as int;
            assert(len / 2 == n);
            assert(values@.map_values(|x: i16| x as int) =~= chunk_values(little, bytes@, 2, true));
        }
        Some(values)
    }

    /// The value as text: ASCII as its text, LONG, SHORT, SLONG and SSHORT
    /// as a number or a bracketed list of numbers, anything else as a hex
    /// dump of at most twenty bytes.
    pub fn string_value(&self) -> (r: String)
        ensures
            r@ == display_text(self@),
    {
        let bytes = self.value_bytes.as_slice();
        if self.has_type("ASCII") {
            if let Some(text) = self.ascii_value() {
                return text;
            }
        }
        if self.has_type("LONG") {
            vec_to_string(&chunk_ints(self.byte_order, bytes, 4, false))
        } else if self.has_type("SHORT") {
            vec_to_string(&chunk_ints(self.byte_order, bytes, 2, false))
        } else if self.has_type("SLONG") {
            vec_to_string(&chunk_ints(self.byte_order, bytes, 4, true))
        } else if self.has_type("SSHORT") {
            vec_to_string(&chunk_ints(self.byte_order, bytes, 2, true))
        } else {
            format_bytes(&self.value_bytes)
        }
    }

    /// Whether the entry's value is the offset of a sub-directory.
    pub fn is_ifd(&self) -> (r: bool)
        ensures
            r == is_dir_entry(self@),
    {
        self.tag.ifd || self.tag.label == String::from_str("MakerNote")
    }
}

} // verus!
