//! One image file directory: an entry count, that many entries, and the
//! offset of the next directory of the chain.

use crate::byte_order::{u16_of, u32_of, ByteOrder};
use crate::ifd_entry::{entry_at, is_dir_entry, is_maker_note, IFDEntry, IFDEntryView, ENTRY_SIZE};
use crate::source::{read_at, read_exact, DecodeError};
use crate::tag::maker_note_label;
use vstd::prelude::*;

verus! {

/// A decoded directory.
pub struct IFD {
    pub entries_count: u16,
    pub entries: Vec<IFDEntry>,
    /// The offset of the next directory of the chain, 0 at its end.
    pub next_ifd_offset: u32,
    /// The directory's type: "Main", or the label of the tag that pointed to it.
    pub ifd_type: String,
    /// The directory's own position in the file.
    pub offset: u32,
}

/// The abstract value of an `IFD`.
pub ghost struct IFDView {
    pub entries_count: u16,
    pub entries: Seq<IFDEntryView>,
    pub next_ifd_offset: u32,
    pub ifd_type: Seq<char>,
    pub offset: u32,
}

impl View for IFD {
    type V = IFDView;

    open spec fn view(&self) -> IFDView {
        IFDView {
            entries_count: self.entries_count,
            entries: self.entries@.map_values(|e: IFDEntry| e@),
            next_ifd_offset: self.next_ifd_offset,
            ifd_type: self.ifd_type@,
            offset: self.offset,
        }
    }
}

/// A directory still to decode: its offset and its type.
pub struct IFDTuple {
    pub offset: u32,
    pub tag_label: String,
}

/// The abstract value of an `IFDTuple`.
pub ghost struct IFDTupleView {
    pub offset: u32,
    pub tag_label: Seq<char>,
}

impl View for IFDTuple {
    type V = IFDTupleView;

    open spec fn view(&self) -> IFDTupleView {
        IFDTupleView { offset: self.offset, tag_label: self.tag_label@ }
    }
}

/// The first `n` entries of the entry array that starts at `start`, or the
/// error of the first of them that fails.
pub open spec fn entries_at(data: Seq<u8>, start: int, order: ByteOrder, maker_note: bool, n: nat) -> Result<Seq<IFDEntryView>, DecodeError>
    decreases n,
{
    if n == 0 {
        Ok(seq![])
    } else {
        match entries_at(data, start, order, maker_note, (n - 1) as nat) {
            Err(e) => Err(e),
            Ok(s) => match entry_at(data, start + ENTRY_SIZE * (n - 1), order, maker_note) {
                Err(e) => Err(e),
                Ok(x) => Ok(s.push(x)),
            },
        }
    }
}

/// The directory of type `ifd_type` at `offset`: the count, the entries that
/// follow it, then the offset of the next directory.
pub open spec fn ifd_at(data: Seq<u8>, offset: u32, order: ByteOrder, ifd_type: Seq<char>) -> Result<IFDView, DecodeError> {
    let little = order.is_little();
    match read_at(data, offset as int, 2) {
        Err(e) => Err(e),
        Ok(count_bytes) => {
            let n = u16_of(little, count_bytes) as u16;
            let start = offset + 2;
            match entries_at(data, start, order, ifd_type == maker_note_label(), n as nat) {
                Err(e) => Err(e),
                Ok(entries) => match read_at(data, start + ENTRY_SIZE * n, 4) {
                    Err(e) => Err(e),
                    Ok(next) => Ok(
                        IFDView {
                            entries_count: n,
                            entries,
                            next_ifd_offset: u32_of(little, next) as u32,
                            ifd_type,
                            offset,
                        },
                    ),
                },
            }
        },
    }
}

/// The sub-directories that `entries` point to, in entry order: one for each
/// entry that points to a directory at a non-zero offset, typed by the
/// entry's tag label.
pub open spec fn sub_ifds(entries: Seq<IFDEntryView>) -> Seq<IFDTupleView>
    decreases entries.len(),
{
    if entries.len() == 0 {
        seq![]
    } else {
        let e = entries.last();
        sub_ifds(entries.drop_last()) + if is_dir_entry(e) && e.value_offset != 0 {
            seq![IFDTupleView { offset: e.value_offset, tag_label: e.tag.label }]
        } else {
            seq![]
        }
    }
}

/// Once an entry fails, every longer prefix of the array fails with its error.
proof fn lemma_entries_error_persists(data: Seq<u8>, start: int, order: ByteOrder, maker_note: bool, k: nat, m: nat)
    requires
        k <= m,
        entries_at(data, start, order, maker_note, k) is Err,
    ensures
        entries_at(data, start, order, maker_note, m) == entries_at(data, start, order, maker_note, k),
    decreases m - k,
{
    if k < m {
        lemma_entries_error_persists(data, start, order, maker_note, k, (m - 1) as nat);
    }
}

impl IFD {
    /// Decodes the directory of type `ifd_type` at `offset`.
    pub fn new(data: &[u8], offset: u32, byte_order: &ByteOrder, ifd_type: &String) -> (r: Result<IFD, DecodeError>)
        ensures
            match r {
                Ok(d) => ifd_at(data@, offset, *byte_order, ifd_type@) == Ok::<IFDView, DecodeError>(d@),
                Err(e) => ifd_at(data@, offset, *byte_order, ifd_type@) == Err::<IFDView, DecodeError>(e),
            },
    {
        let buf = match read_exact(data, offset as u64, 2) {
            Ok(b) => b,
            Err(e) => return Err(e),
        };
        let entries_count = byte_order.parse_u16(buf);
        let start = offset as u64 + 2;
        let ghost maker = ifd_type@ == maker_note_label();
        let mut entries: Vec<IFDEntry> = Vec::new();
        let mut ifd_entry_offset = start;
        let mut i: u16 = 0;
        proof {
            assert(entries@.map_values(|e: IFDEntry| e@) =~= Seq::<IFDEntryView>::empty());
        }
        while i < entries_count
            invariant
                i <= entries_count,
                read_at(data@, offset as int, 2) == Ok::<Seq<u8>, DecodeError>(buf@),
                entries_count as int == u16_of(byte_order.is_little(), buf@),
                start == offset + 2,
                ifd_entry_offset == start + ENTRY_SIZE * i,
                maker == (ifd_type@ == maker_note_label()),
                entries_at(data@, start as int, *byte_order, maker, i as nat) == Ok::<
                    Seq<IFDEntryView>,
                    DecodeError,
                >(entries@.map_values(|e: IFDEntry| e@)),
            decreases entries_count - i,
        {
            let ghost before = entries@;
            match IFDEntry::new(data, ifd_entry_offset, *byte_order, ifd_type) {
                Ok(entry) => {
                    entries.push(entry);
                },
                Err(e) => {
                    proof {
                        let k = (i + 1) as nat;
                        assert(entries_at(data@, start as int, *byte_order, maker, k) == Err::<
                            Seq<IFDEntryView>,
                            DecodeError,
                        >(e));
                        lemma_entries_error_persists(
                            data@,
                            start as int,
                            *byte_order,
                            maker,
                            k,
                            entries_count as nat,
                        );
                    }
                    return Err(e);
                },
            }
            proof {
                assert(entries@.map_values(|e: IFDEntry| e@) =~= before.map_values(
                    |e: IFDEntry| e@,
                ).push(entries@.last()@));
            }
            ifd_entry_offset = ifd_entry_offset + ENTRY_SIZE;
            i = i + 1;
        }
        let next = match read_exact(data, ifd_entry_offset, 4) {
            Ok(b) => b,
            Err(e) => return Err(e),
        };
        let next_ifd_offset = byte_order.parse_u32(next);
        Ok(IFD { entries_count, entries, next_ifd_offset, ifd_type: ifd_type.clone(), offset })
    }

    /// The sub-directories that this directory's entries point to, in entry
    /// order, each typed by the label of the tag that points to it; entries
    /// whose offset is 0 point nowhere and are left out.
    pub fn sub_ifd_offsets(&self) -> (r: Vec<IFDTuple>)
        ensures
            r@.map_values(|t: IFDTuple| t@) == sub_ifds(self@.entries),
    {
        let mut sub_ifd_offsets: Vec<IFDTuple> = Vec::new();
        let mut i: usize = 0;
        while i < self.entries.len()
            invariant
                i <= self.entries@.len(),
                sub_ifd_offsets@.map_values(|t: IFDTuple| t@) == sub_ifds(
                    self@.entries.take(i as int),
                ),
            decreases self.entries@.len() - i,
        {
            let entry = &self.entries[i];
            let ghost before = sub_ifd_offsets@;
            if entry.is_ifd() && entry.value_offset != 0 {
                sub_ifd_offsets.push(
                    IFDTuple { offset: entry.value_offset, tag_label: entry.tag.label.clone() },
                );
            }
            proof {
                let t = self@.entries.take(i as int + 1);
                assert(t.drop_last() =~= self@.entries.take(i as int));
                assert(t.last() == entry@);
                assert(sub_ifd_offsets@.map_values(|t: IFDTuple| t@) =~= sub_ifds(t));
            }
            i = i + 1;
        }
        proof {
            assert(self@.entries.take(self.entries@.len() as int) =~= self@.entries);
        }
        sub_ifd_offsets
    }
}

} // verus!
