//! The file header and the traversal of the directory graph that it roots.
//!
//! Traversal keeps a first-in first-out list of directories still to decode,
//! seeded with the first directory, typed "Main". Each decoded directory adds
//! the sub-directories that its entries point to, then the next directory of
//! its chain with its own type. Directories thus come out in discovery order,
//! wave after wave. An offset that comes up a second time is rejected as a
//! cyclic reference, so traversal ends on every file.

use crate::byte_order::{u16_of, u32_of, ByteOrder};
use crate::ifd::{ifd_at, sub_ifds, IFDTuple, IFDTupleView, IFDView, IFD};
use crate::source::{read_at, read_exact, DecodeError};
use vstd::prelude::*;

verus! {

/// The byte-order marker of a little-endian file, repeated twice: "II".
pub const LE_MAGIC: u8 = 73;

/// The byte-order marker of a big-endian file, repeated twice: "MM".
pub const BE_MAGIC: u8 = 77;

/// The size in bytes of the file header.
pub const HEADER_SIZE: u64 = 8;

/// The byte order, magic number and first directory offset that the header
/// of `data` gives.
pub open spec fn header_at(data: Seq<u8>) -> Result<(ByteOrder, u16, u32), DecodeError> {
    match read_at(data, 0, HEADER_SIZE as int) {
        Err(e) => Err(e),
        Ok(b) => {
            if b[0] == b[1] && (b[1] == LE_MAGIC || b[1] == BE_MAGIC) {
                let order = if b[1] == LE_MAGIC {
                    ByteOrder::LittleEndian
                } else {
                    ByteOrder::BigEndian
                };
                Ok(
                    (
                        order,
                        u16_of(order.is_little(), b.subrange(2, 4)) as u16,
                        u32_of(order.is_little(), b.subrange(4, 8)) as u32,
                    ),
                )
            } else {
                Err(DecodeError::UnknownByteOrder)
            }
        },
    }
}

/// The state of a traversal: the directories still to decode, in order, and
/// those decoded so far.
pub ghost struct Traversal {
    pub pending: Seq<IFDTupleView>,
    pub found: Seq<IFDView>,
}

/// The state before any directory is decoded.
pub open spec fn traversal_start(first_offset: u32) -> Traversal {
    Traversal {
        pending: seq![IFDTupleView { offset: first_offset, tag_label: "Main"@ }],
        found: seq![],
    }
}

/// Whether a directory at `offset` has been decoded already.
pub open spec fn visited(found: Seq<IFDView>, offset: u32) -> bool {
    exists|j: int| 0 <= j < found.len() && #[trigger] found[j].offset == offset
}

/// The next directory of `d`'s chain, of type `label`, if there is one.
pub open spec fn chain_link(d: IFDView, label: Seq<char>) -> Seq<IFDTupleView> {
    if d.next_ifd_offset != 0 {
        seq![IFDTupleView { offset: d.next_ifd_offset, tag_label: label }]
    } else {
        seq![]
    }
}

/// Decodes the first pending directory, unless its offset was seen before,
/// and queues what it points to.
pub open spec fn traversal_step(data: Seq<u8>, order: ByteOrder, t: Traversal) -> Result<Traversal, DecodeError> {
    let item = t.pending[0];
    if visited(t.found, item.offset) {
        Err(DecodeError::CyclicReference)
    } else {
        match ifd_at(data, item.offset, order, item.tag_label) {
            Err(e) => Err(e),
            Ok(d) => Ok(
                Traversal {
                    pending: t.pending.drop_first() + sub_ifds(d.entries) + chain_link(
                        d,
                        item.tag_label,
                    ),
                    found: t.found.push(d),
                },
            ),
        }
    }
}

/// The state after `steps` steps from `start`, or the first error; a state
/// with nothing pending is final.
pub open spec fn traversal_after(data: Seq<u8>, order: ByteOrder, start: Traversal, steps: nat) -> Result<Traversal, DecodeError>
    decreases steps,
{
    if steps == 0 {
        Ok(start)
    } else {
        match traversal_after(data, order, start, (steps - 1) as nat) {
            Err(e) => Err(e),
            Ok(t) => if t.pending.len() == 0 {
                Ok(t)
            } else {
                traversal_step(data, order, t)
            },
        }
    }
}

/// The traversal from the directory at `first` ends with nothing pending,
/// having decoded `found`.
pub open spec fn traversal_yields(data: Seq<u8>, order: ByteOrder, first: u32, found: Seq<IFDView>) -> bool {
    exists|k: nat|
        traversal_after(data, order, traversal_start(first), k) == Ok::<Traversal, DecodeError>(
            Traversal { pending: seq![], found },
        )
}

/// The traversal from the directory at `first` fails with `e`.
pub open spec fn traversal_fails(data: Seq<u8>, order: ByteOrder, first: u32, e: DecodeError) -> bool {
    exists|k: nat|
        traversal_after(data, order, traversal_start(first), k) == Err::<Traversal, DecodeError>(e)
}

/// A decoded file: its header and all its directories in discovery order.
pub struct Header {
    pub byte_order: ByteOrder,
    pub magic_number: u16,
    /// The offset of the first directory.
    pub ifd_offset: u32,
    pub ifds: Vec<IFD>,
}

/// The abstract value of a `Header`.
pub ghost struct HeaderView {
    pub byte_order: ByteOrder,
    pub magic_number: u16,
    pub ifd_offset: u32,
    pub ifds: Seq<IFDView>,
}

impl View for Header {
    type V = HeaderView;

    open spec fn view(&self) -> HeaderView {
        HeaderView {
            byte_order: self.byte_order,
            magic_number: self.magic_number,
            ifd_offset: self.ifd_offset,
            ifds: self.ifds@.map_values(|d: IFD| d@),
        }
    }
}

/// No two directories share an offset.
pub open spec fn distinct_offsets(ifds: Seq<IFDView>) -> bool {
    forall|i: int, j: int|
        0 <= i < ifds.len() && 0 <= j < ifds.len() && i != j ==> #[trigger] ifds[i].offset
            != #[trigger] ifds[j].offset
}

/// Directories at distinct offsets below `bound` number at most `bound`.
proof fn lemma_distinct_offsets_bounded(ifds: Seq<IFDView>, bound: int)
    requires
        bound >= 0,
        distinct_offsets(ifds),
        forall|i: int| 0 <= i < ifds.len() ==> #[trigger] ifds[i].offset < bound,
    ensures
        ifds.len() <= bound,
{
    let offsets = ifds.map_values(|d: IFDView| d.offset as int);
    assert(offsets.no_duplicates()) by {
        assert forall|i: int, j: int|
            0 <= i < offsets.len() && 0 <= j < offsets.len() && i != j implies offsets[i]
            != offsets[j] by {
            assert(ifds[i].offset != ifds[j].offset);
        }
    }
    offsets.unique_seq_to_set();
    vstd::set_lib::lemma_int_range(0, bound);
    assert(offsets.to_set().subset_of(vstd::set_lib::set_int_range(0, bound))) by {
        assert forall|x: int| offsets.to_set().contains(x) implies vstd::set_lib::set_int_range(
            0,
            bound,
        ).contains(x) by {
            let i = choose|i: int| 0 <= i < offsets.len() && offsets[i] == x;
            assert(ifds[i].offset < bound);
        }
    }
    vstd::set_lib::lemma_len_subset(offsets.to_set(), vstd::set_lib::set_int_range(0, bound));
}

/// Whether one of `ifds` lies at `offset`.
fn is_visited(ifds: &Vec<IFD>, offset: u32) -> (r: bool)
    ensures
        r == visited(ifds@.map_values(|d: IFD| d@), offset),
{
    let ghost found = ifds@.map_values(|d: IFD| d@);
    let mut j: usize = 0;
    while j < ifds.len()
        invariant
            j <= ifds@.len(),
            found == ifds@.map_values(|d: IFD| d@),
            forall|q: int| 0 <= q < j ==> #[trigger] found[q].offset != offset,
        decreases ifds@.len() - j,
    {
        if ifds[j].offset == offset {
            proof {
                assert(found[j as int].offset == offset);
            }
            return true;
        }
        j = j + 1;
    }
    false
}

/// Adding a directory at an offset not yet visited keeps the offsets
/// distinct.
proof fn lemma_push_unvisited(found: Seq<IFDView>, d: IFDView)
    requires
        distinct_offsets(found),
        !visited(found, d.offset),
    ensures
        distinct_offsets(found.push(d)),
{
    let all = found.push(d);
    assert forall|i: int, j: int|
        0 <= i < all.len() && 0 <= j < all.len() && i != j implies #[trigger] all[i].offset
        != #[trigger] all[j].offset by {
        if i == all.len() - 1 {
            assert(found[j].offset != d.offset);
        } else if j == all.len() - 1 {
            assert(found[i].offset != d.offset);
        } else {
            assert(found[i].offset != found[j].offset);
        }
    }
}

/// A decoded directory's count lies within the file.
proof fn lemma_ifd_within(data: Seq<u8>, offset: u32, order: ByteOrder, label: Seq<char>)
    requires
        ifd_at(data, offset, order, label) is Ok,
    ensures
        offset + 2 <= data.len(),
{
}

/// The traversal state that a work list read from `head` on and the
/// directories decoded so far stand for.
pub open spec fn state_of(offsets: Seq<IFDTuple>, head: int, ifds: Seq<IFD>) -> Traversal {
    Traversal {
        pending: offsets.map_values(|t: IFDTuple| t@).skip(head),
        found: ifds.map_values(|d: IFD| d@),
    }
}

/// Every decoded directory's count lies within the file.
pub open spec fn within(data: Seq<u8>, found: Seq<IFDView>) -> bool {
    forall|i: int| 0 <= i < found.len() ==> #[trigger] found[i].offset + 2 <= data.len()
}

/// Takes one step of the traversal: decodes the directory at `head` of the
/// work list, appends what it points to, and records it.
fn traverse_one(data: &[u8], byte_order: ByteOrder, offsets: &mut Vec<IFDTuple>, head: usize, ifds: &mut Vec<IFD>) -> (r: Result<(), DecodeError>)
    requires
        head < old(offsets)@.len(),
        distinct_offsets(old(ifds)@.map_values(|d: IFD| d@)),
        within(data@, old(ifds)@.map_values(|d: IFD| d@)),
    ensures
        match r {
            Ok(_) => {
                &&& traversal_step(data@, byte_order, state_of(old(offsets)@, head as int, old(ifds)@))
                    == Ok::<Traversal, DecodeError>(
                    state_of(final(offsets)@, head + 1, final(ifds)@),
                )
                &&& final(ifds)@.len() == old(ifds)@.len() + 1
                &&& final(offsets)@.len() >= old(offsets)@.len()
                &&& final(ifds)@.len() <= data@.len()
                &&& distinct_offsets(final(ifds)@.map_values(|d: IFD| d@))
                &&& within(data@, final(ifds)@.map_values(|d: IFD| d@))
            },
            Err(e) => traversal_step(data@, byte_order, state_of(old(offsets)@, head as int, old(ifds)@))
                == Err::<Traversal, DecodeError>(e),
        },
{
    let ghost t = state_of(offsets@, head as int, ifds@);
    let ghost old_found = ifds@.map_values(|d: IFD| d@);
    let item_offset = offsets[head].offset;
    let label = offsets[head].tag_label.clone();
    let ghost label_view = label@;
    proof {
        assert(t.pending[0] == offsets@[head as int]@);
    }
    if is_visited(ifds, item_offset) {
        return Err(DecodeError::CyclicReference);
    }
    let ifd = match IFD::new(data, item_offset, &byte_order, &label) {
        Ok(d) => d,
        Err(e) => return Err(e),
    };
    let ghost d = ifd@;
    let mut subs = ifd.sub_ifd_offsets();
    let ghost subs_view = subs@.map_values(|t: IFDTuple| t@);
    offsets.append(&mut subs);
    if ifd.next_ifd_offset != 0 {
        offsets.push(IFDTuple { offset: ifd.next_ifd_offset, tag_label: label });
    }
    ifds.push(ifd);
    proof {
        assert(offsets@.map_values(|t: IFDTuple| t@).skip(head + 1) =~= t.pending.drop_first()
            + subs_view + chain_link(d, label_view));
        assert(ifds@.map_values(|d: IFD| d@) =~= old_found.push(d));
        lemma_push_unvisited(old_found, d);
        lemma_ifd_within(data@, item_offset, byte_order, label_view);
        let found = ifds@.map_values(|d: IFD| d@);
        assert forall|i: int| 0 <= i < found.len() implies #[trigger] found[i].offset + 2 <= data@.len() by {
            if i < found.len() - 1 {
                assert(found[i] == old_found[i]);
            }
        }
        assert forall|i: int| 0 <= i < found.len() implies #[trigger] found[i].offset < data@.len() as int - 1 by {
            assert(found[i].offset + 2 <= data@.len());
        }
        lemma_distinct_offsets_bounded(found, data@.len() as int - 1);
    }
    Ok(())
}

/// Some directory still pending lies at an offset already decoded.
pub open spec fn stale_pending(t: Traversal) -> bool {
    exists|i: int| 0 <= i < t.pending.len() && visited(t.found, #[trigger] t.pending[i].offset)
}

/// A stale pending directory stays pending, and stale, until the traversal
/// fails on it or on an earlier one.
proof fn lemma_stale_persists(data: Seq<u8>, order: ByteOrder, start: Traversal, k: nat)
    requires
        k >= 1,
        traversal_after(data, order, start, 1) matches Ok(t1) && stale_pending(t1),
    ensures
        traversal_after(data, order, start, k) matches Ok(t) ==> stale_pending(t),
    decreases k,
{
    if k > 1 {
        lemma_stale_persists(data, order, start, (k - 1) as nat);
        if let Ok(t) = traversal_after(data, order, start, (k - 1) as nat) {
            let i = choose|i: int| 0 <= i < t.pending.len() && visited(t.found, #[trigger] t.pending[i].offset);
            if !visited(t.found, t.pending[0].offset) {
                if let Ok(u) = traversal_step(data, order, t) {
                    let j = choose|j: int| 0 <= j < t.found.len() && #[trigger] t.found[j].offset == t.pending[i].offset;
                    assert(u.pending[i - 1] == t.pending[i]);
                    assert(u.found[j] == t.found[j]);
                }
            }
        }
    }
}

/// A file whose first directory lists itself, as a sub-directory or as the
/// next directory of its chain, never decodes: at every step the traversal
/// has either failed or still has directories pending, so it never ends
/// with nothing pending, which `Header::new` needs to succeed.
pub proof fn lemma_self_reference_never_decodes(data: Seq<u8>, order: ByteOrder, first: u32, found: Seq<IFDView>)
    requires
        ifd_at(data, first, order, "Main"@) matches Ok(root) && ((first != 0
            && root.next_ifd_offset == first) || exists|i: int|
            0 <= i < sub_ifds(root.entries).len() && #[trigger] sub_ifds(root.entries)[i].offset
                == first),
    ensures
        !traversal_yields(data, order, first, found),
{
    let start = traversal_start(first);
    let root = ifd_at(data, first, order, "Main"@)->Ok_0;
    assert(traversal_after(data, order, start, 0) == Ok::<Traversal, DecodeError>(start));
    assert(!visited(start.found, first));
    let t1 = traversal_after(data, order, start, 1)->Ok_0;
    let subs = sub_ifds(root.entries);
    assert(t1.pending == subs + chain_link(root, "Main"@));
    assert(t1.found == seq![root]);
    assert(root.offset == first);
    assert(t1.found[0].offset == first);
    if first != 0 && root.next_ifd_offset == first {
        assert(t1.pending[subs.len() as int].offset == first);
        assert(visited(t1.found, t1.pending[subs.len() as int].offset));
    } else {
        let i = choose|i: int| 0 <= i < subs.len() && #[trigger] subs[i].offset == first;
        assert(t1.pending[i].offset == first);
        assert(visited(t1.found, t1.pending[i].offset));
    }
    assert(stale_pending(t1));
    if traversal_yields(data, order, first, found) {
        let k = choose|k: nat|
            traversal_after(data, order, start, k) == Ok::<Traversal, DecodeError>(
                Traversal { pending: seq![], found },
            );
        if k >= 1 {
            lemma_stale_persists(data, order, start, k);
        }
    }
}

impl Header {
    /// Decodes the header of the file `data`, then every directory reachable
    /// from the first one: through the entries that point to sub-directories
    /// and through the chains of next-directory offsets. Any error aborts the
    /// whole decode.
    pub fn new(data: &[u8]) -> (r: Result<Header, DecodeError>)
        ensures
            match r {
                Ok(h) => {
                    &&& header_at(data@) == Ok::<(ByteOrder, u16, u32), DecodeError>(
                        (h.byte_order, h.magic_number, h.ifd_offset),
                    )
                    &&& traversal_yields(data@, h.byte_order, h.ifd_offset, h@.ifds)
                    &&& distinct_offsets(h@.ifds)
                },
                Err(e) => match header_at(data@) {
                    Err(he) => he == e,
                    Ok((order, _, first)) => traversal_fails(data@, order, first, e),
                },
            },
            data@.len() < HEADER_SIZE ==> r matches Err(DecodeError::TruncatedRead),
    {
        let buf = match read_exact(data, 0, HEADER_SIZE) {
            Ok(b) => b,
            Err(e) => return Err(e),
        };
        let byte_order = if buf[0] == buf[1] && buf[1] == LE_MAGIC {
            ByteOrder::LittleEndian
        } else if buf[0] == buf[1] && buf[1] == BE_MAGIC {
            ByteOrder::BigEndian
        } else {
            return Err(DecodeError::UnknownByteOrder);
        };
        let magic_number = byte_order.parse_u16(&buf[2..4]);
        let ifd_offset = byte_order.parse_u32(&buf[4..8]);
        let ghost start = traversal_start(ifd_offset);
        let mut offsets: Vec<IFDTuple> = Vec::new();
        offsets.push(IFDTuple { offset: ifd_offset, tag_label: String::from_str("Main") });
        let mut head: usize = 0;
        let mut ifds: Vec<IFD> = Vec::new();
        proof {
            assert(state_of(offsets@, 0, ifds@).pending =~= start.pending);
            assert(state_of(offsets@, 0, ifds@).found =~= start.found);
        }
        while head < offsets.len()
            invariant
                header_at(data@) == Ok::<(ByteOrder, u16, u32), DecodeError>(
                    (byte_order, magic_number, ifd_offset),
                ),
                start == traversal_start(ifd_offset),
                head <= offsets@.len(),
                traversal_after(data@, byte_order, start, ifds@.len() as nat) == Ok::<
                    Traversal,
                    DecodeError,
                >(state_of(offsets@, head as int, ifds@)),
                distinct_offsets(ifds@.map_values(|d: IFD| d@)),
                within(data@, ifds@.map_values(|d: IFD| d@)),
                ifds@.len() <= data@.len(),
                data@.len() >= HEADER_SIZE,
            decreases data@.len() - ifds@.len(),
        {
            let ghost k1: nat = ifds@.len() as nat + 1;
            let ghost t = state_of(offsets@, head as int, ifds@);
            proof {
                assert(t.pending.len() > 0);
                assert(traversal_after(data@, byte_order, start, k1) == traversal_step(
                    data@,
                    byte_order,
                    t,
                ));
            }
            match traverse_one(data, byte_order, &mut offsets, head, &mut ifds) {
                Ok(_) => {},
                Err(e) => {
                    proof {
                        assert(traversal_after(data@, byte_order, start, k1) == Err::<
                            Traversal,
                            DecodeError,
                        >(e));
                        assert(traversal_fails(data@, byte_order, ifd_offset, e));
                    }
                    return Err(e);
                },
            }
            head = head + 1;
        }
        proof {
            assert(state_of(offsets@, head as int, ifds@).pending =~= Seq::<IFDTupleView>::empty());
            assert(traversal_after(data@, byte_order, start, ifds@.len() as nat) == Ok::<
                Traversal,
                DecodeError,
            >(Traversal { pending: seq![], found: ifds@.map_values(|d: IFD| d@) }));
        }
        Ok(Header { byte_order, magic_number, ifd_offset, ifds })
    }
}

} // verus!
