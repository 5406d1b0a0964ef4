//! The unsigned conversions under a second name, for callers that name the
//! byte order `ByteOrders`.

use crate::byte_order::{u16_bytes, u16_of, u32_bytes, u32_of, ByteOrder};
use vstd::prelude::*;

verus! {

#[derive(PartialEq, Eq, Structural, Clone, Copy, Debug)]
pub enum ByteOrders {
    LittleEndian,
    BigEndian,
}

impl ByteOrders {
    pub open spec fn is_little(self) -> bool {
        self == ByteOrders::LittleEndian
    }

    /// The same order as a `ByteOrder`.
    pub fn order(&self) -> (r: ByteOrder)
        ensures
            r.is_little() == self.is_little(),
    {
        match self {
            ByteOrders::LittleEndian => ByteOrder::LittleEndian,
            ByteOrders::BigEndian => ByteOrder::BigEndian,
        }
    }

    pub fn parse_u16(&self, buf: &[u8]) -> (r: u16)
        requires
            buf@.len() == 2,
        ensures
            r as int == u16_of(self.is_little(), buf@),
    {
        self.order().parse_u16(buf)
    }

    pub fn parse_u32(&self, buf: &[u8]) -> (r: u32)
        requires
            buf@.len() == 4,
        ensures
            r as int == u32_of(self.is_little(), buf@),
    {
        self.order().parse_u32(buf)
    }

    pub fn u16_to_slice(&self, val: u16) -> (r: [u8; 2])
        ensures
            r@ == u16_bytes(self.is_little(), val as int),
    {
        self.order().u16_to_slice(val)
    }

    pub fn u32_to_slice(&self, val: u32) -> (r: [u8; 4])
        ensures
            r@ == u32_bytes(self.is_little(), val as int),
    {
        self.order().u32_to_slice(val)
    }
}

} // verus!
