//! Conversion between byte sequences and fixed-width integers in either byte
//! order.

use vstd::prelude::*;

verus! {

/// The value of two bytes, most significant first when `little` is false.
pub open spec fn u16_of(little: bool, b: Seq<u8>) -> int {
    if little {
        b[1] * 256 + b[0]
    } else {
        b[0] * 256 + b[1]
    }
}

/// The value of four bytes, most significant first when `little` is false.
pub open spec fn u32_of(little: bool, b: Seq<u8>) -> int {
    if little {
        b[3] * 0x1000000 + b[2] * 0x10000 + b[1] * 0x100 + b[0]
    } else {
        b[0] * 0x1000000 + b[1] * 0x10000 + b[2] * 0x100 + b[3]
    }
}

/// Byte `i` of `v`, counting from the least significant one.
pub open spec fn byte_at(v: int, i: nat) -> u8 {
    ((v / pow256(i)) % 256) as u8
}

pub open spec fn pow256(i: nat) -> int
    decreases i,
{
    if i == 0 {
        1
    } else {
        256 * pow256((i - 1) as nat)
    }
}

/// The two bytes that hold `v`.
pub open spec fn u16_bytes(little: bool, v: int) -> Seq<u8> {
    if little {
        seq![byte_at(v, 0), byte_at(v, 1)]
    } else {
        seq![byte_at(v, 1), byte_at(v, 0)]
    }
}

/// The four bytes that hold `v`.
pub open spec fn u32_bytes(little: bool, v: int) -> Seq<u8> {
    if little {
        seq![byte_at(v, 0), byte_at(v, 1), byte_at(v, 2), byte_at(v, 3)]
    } else {
        seq![byte_at(v, 3), byte_at(v, 2), byte_at(v, 1), byte_at(v, 0)]
    }
}

/// The two's complement reading of a 16-bit pattern.
pub open spec fn signed16(u: int) -> int {
    if u >= 0x8000 {
        u - 0x10000
    } else {
        u
    }
}

/// The two's complement reading of a 32-bit pattern.
pub open spec fn signed32(u: int) -> int {
    if u >= 0x8000_0000 {
        u - 0x1_0000_0000
    } else {
        u
    }
}

/// Encoding a 16-bit value and reading it back gives the value, and reading
/// two bytes and encoding the result gives the bytes back, in either order.
pub proof fn lemma_u16_round_trip(order: ByteOrder, v: u16, b: Seq<u8>)
    requires
        b.len() == 2,
    ensures
        u16_of(order.is_little(), u16_bytes(order.is_little(), v as int)) == v,
        u16_bytes(order.is_little(), u16_of(order.is_little(), b)) == b,
{
    reveal_with_fuel(pow256, 2);
    let x = v as int;
    assert(x == (x / 256) * 256 + x % 256 && x / 256 < 256) by (nonlinear_arith)
        requires
            0 <= x < 0x10000,
    ;
    assert((x / 256) % 256 == x / 256);
    let (hi, lo) = if order.is_little() {
        (b[1] as int, b[0] as int)
    } else {
        (b[0] as int, b[1] as int)
    };
    let y = hi * 256 + lo;
    assert(y % 256 == lo && (y / 256) % 256 == hi) by (nonlinear_arith)
        requires
            0 <= hi < 256,
            0 <= lo < 256,
            y == hi * 256 + lo,
    ;
    assert(u16_of(order.is_little(), b) == y);
    assert(u16_bytes(order.is_little(), y) =~= b);
}

/// Encoding a 32-bit value and reading it back gives the value, and reading
/// four bytes and encoding the result gives the bytes back, in either order.
pub proof fn lemma_u32_round_trip(order: ByteOrder, v: u32, b: Seq<u8>)
    requires
        b.len() == 4,
    ensures
        u32_of(order.is_little(), u32_bytes(order.is_little(), v as int)) == v,
        u32_bytes(order.is_little(), u32_of(order.is_little(), b)) == b,
{
    reveal_with_fuel(pow256, 4);
    let x = v as int;
    assert(x == ((x / 0x1000000) % 256) * 0x1000000 + ((x / 0x10000) % 256) * 0x10000 + ((x
        / 0x100) % 256) * 0x100 + x % 256) by (nonlinear_arith)
        requires
            0 <= x < 0x1_0000_0000,
    ;
    let (b3, b2, b1, b0) = if order.is_little() {
        (b[3] as int, b[2] as int, b[1] as int, b[0] as int)
    } else {
        (b[0] as int, b[1] as int, b[2] as int, b[3] as int)
    };
    let y = b3 * 0x1000000 + b2 * 0x10000 + b1 * 0x100 + b0;
    assert(y % 256 == b0 && (y / 0x100) % 256 == b1 && (y / 0x10000) % 256 == b2 && (y
        / 0x1000000) % 256 == b3) by (nonlinear_arith)
        requires
            0 <= b0 < 256,
            0 <= b1 < 256,
            0 <= b2 < 256,
            0 <= b3 < 256,
            y == b3 * 0x1000000 + b2 * 0x10000 + b1 * 0x100 + b0,
    ;
    assert(u32_of(order.is_little(), b) == y);
    assert(u32_bytes(order.is_little(), y) =~= b);
}

/// The two's complement readings are the sign-bit split: minus the sign bit's
/// weight plus the value of the remaining bits.
pub proof fn lemma_sign_split(u16v: u16, u32v: u32)
    ensures
        signed16(u16v as int) == -((u16v & 0x8000u16) as int) + ((u16v & 0x7fffu16) as int),
        signed32(u32v as int) == -((u32v & 0x8000_0000u32) as int) + ((u32v & 0x7fff_ffffu32) as int),
{
    assert(u16v >= 0x8000 ==> (u16v & 0x8000u16) == 0x8000 && (u16v & 0x7fffu16) == u16v - 0x8000) by (bit_vector);
    assert(u16v < 0x8000 ==> (u16v & 0x8000u16) == 0 && (u16v & 0x7fffu16) == u16v) by (bit_vector);
    assert(u32v >= 0x8000_0000 ==> (u32v & 0x8000_0000u32) == 0x8000_0000 && (u32v & 0x7fff_ffffu32) == u32v - 0x8000_0000) by (bit_vector);
    assert(u32v < 0x8000_0000 ==> (u32v & 0x8000_0000u32) == 0 && (u32v & 0x7fff_ffffu32) == u32v) by (bit_vector);
}

/// The byte order of a file, fixed by its header.
#[derive(PartialEq, Eq, Structural, Clone, Copy, Debug)]
pub enum ByteOrder {
    LittleEndian,
    BigEndian,
}

impl ByteOrder {
    pub open spec fn is_little(self) -> bool {
        self == ByteOrder::LittleEndian
    }

    /// A short name of the order: "LE" or "BE".
    pub fn to_str(&self) -> (r: String)
        ensures
            r@ == (if self.is_little() {
                "LE"@
            } else {
                "BE"@
            }),
    {
        if *self == ByteOrder::BigEndian {
            String::from_str("BE")
        } else {
            String::from_str("LE")
        }
    }

    pub fn parse_u16(&self, buf: &[u8]) -> (r: u16)
        requires
            buf@.len() == 2,
        ensures
            r as int == u16_of(self.is_little(), buf@),
    {
        if *self == ByteOrder::LittleEndian {
            (buf[1] as u16) * 256 + (buf[0] as u16)
        } else {
            (buf[0] as u16) * 256 + (buf[1] as u16)
        }
    }

    pub fn parse_u32(&self, buf: &[u8]) -> (r: u32)
        requires
            buf@.len() == 4,
        ensures
            r as int == u32_of(self.is_little(), buf@),
    {
        if *self == ByteOrder::LittleEndian {
            (buf[3] as u32) * 0x1000000 + (buf[2] as u32) * 0x10000 + (buf[1] as u32) * 0x100
                + (buf[0] as u32)
        } else {
            (buf[0] as u32) * 0x1000000 + (buf[1] as u32) * 0x10000 + (buf[2] as u32) * 0x100
                + (buf[3] as u32)
        }
    }

    /// Reads two bytes as a two's complement integer.
    pub fn parse_i16(&self, buf: &[u8]) -> (r: i16)
        requires
            buf@.len() == 2,
        ensures
            r as int == signed16(u16_of(self.is_little(), buf@)),
    {
        let u = self.parse_u16(buf);
        if u >= 0x8000 {
            (u as i32 - 0x10000) as i16
        } else {
            u as i16
        }
    }

    /// Reads four bytes as a two's complement integer.
    pub fn parse_i32(&self, buf: &[u8]) -> (r: i32)
        requires
            buf@.len() == 4,
        ensures
            r as int == signed32(u32_of(self.is_little(), buf@)),
    {
        let u = self.parse_u32(buf);
        if u >= 0x8000_0000 {
            (u as i64 - 0x1_0000_0000) as i32
        } else {
            u as i32
        }
    }

    pub fn u16_to_slice(&self, val: u16) -> (r: [u8; 2])
        ensures
            r@ == u16_bytes(self.is_little(), val as int),
    {
        let lo = (val % 256) as u8;
        let hi = (val / 256) as u8;
        proof {
            reveal_with_fuel(pow256, 2);
        }
        if *self == ByteOrder::LittleEndian {
            [lo, hi]
        } else {
            [hi, lo]
        }
    }

    pub fn u32_to_slice(&self, val: u32) -> (r: [u8; 4])
        ensures
            r@ == u32_bytes(self.is_little(), val as int),
    {
        let b0 = (val % 256) as u8;
        let b1 = (val / 0x100 % 256) as u8;
        let b2 = (val / 0x10000 % 256) as u8;
        let b3 = (val / 0x1000000 % 256) as u8;
        proof {
            reveal_with_fuel(pow256, 4);
        }
        if *self == ByteOrder::LittleEndian {
            [b0, b1, b2, b3]
        } else {
            [b3, b2, b1, b0]
        }
    }
}

} // verus!
