//! The file as a source of bytes: positioned reads and the errors they give.

use vstd::prelude::*;

verus! {

/// Why a file could not be decoded.
#[derive(PartialEq, Eq, Structural, Clone, Copy, Debug)]
pub enum DecodeError {
    /// Fewer bytes are left in the file than a structure needs.
    TruncatedRead,
    /// A position lies past the end of the file.
    SeekFailure,
    /// The header's byte-order marker is neither "II" nor "MM".
    UnknownByteOrder,
    /// A directory offset came up a second time during traversal.
    CyclicReference,
}

/// Reading `n` bytes at position `pos` of the file `data`: the position must
/// lie within the file, and the `n` bytes must follow it there.
pub open spec fn read_at(data: Seq<u8>, pos: int, n: int) -> Result<Seq<u8>, DecodeError> {
    if pos > data.len() {
        Err(DecodeError::SeekFailure)
    } else if pos + n > data.len() {
        Err(DecodeError::TruncatedRead)
    } else {
        Ok(data.subrange(pos, pos + n))
    }
}

/// Seeks to `pos` and reads exactly `n` bytes.
pub fn read_exact(data: &[u8], pos: u64, n: u64) -> (r: Result<&[u8], DecodeError>)
    ensures
        match r {
            Ok(s) => read_at(data@, pos as int, n as int) == Ok::<Seq<u8>, DecodeError>(s@),
            Err(e) => read_at(data@, pos as int, n as int) == Err::<Seq<u8>, DecodeError>(e),
        },
{
    let len = data.len() as u64;
    if pos > len {
        Err(DecodeError::SeekFailure)
    } else if n > len - pos {
        Err(DecodeError::TruncatedRead)
    } else {
        let s = &data[pos as usize..(pos + n) as usize];
        Ok(s)
    }
}

} // verus!
