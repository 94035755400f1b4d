//! Fixed-width network-byte-order integer wrappers.
//!
//! A wrapper is an array of network-endian (big-endian) bytes standing for
//! an unsigned integer primitive. `new` stores a native value in network
//! order; `get` reverses it. Both are total, infallible and branch-free,
//! and `get(new(v)) == v` for every native value.

use vstd::prelude::*;

verus! {

/// The native value encoded by two big-endian bytes.
pub open spec fn be16(b0: u8, b1: u8) -> int {
    b0 * 0x100 + b1
}

/// The native value encoded by four big-endian bytes.
pub open spec fn be32(b0: u8, b1: u8, b2: u8, b3: u8) -> int {
    b0 * 0x100_0000 + b1 * 0x1_0000 + b2 * 0x100 + b3
}

/// One network-endian byte standing for a `u8`.
#[derive(Debug, Hash, PartialEq, Eq, PartialOrd, Ord, Clone, Copy)]
pub struct U8(pub [u8; 1]);

/// Two network-endian bytes standing for a `u16`.
#[derive(Debug, Hash, PartialEq, Eq, PartialOrd, Ord, Clone, Copy)]
pub struct U16(pub [u8; 2]);

/// Four network-endian bytes standing for a `u32`.
#[derive(Debug, Hash, PartialEq, Eq, PartialOrd, Ord, Clone, Copy)]
pub struct U32(pub [u8; 4]);

impl U8 {
    /// The native value this wrapper stores.
    pub open spec fn value(self) -> int {
        self.0[0] as int
    }

    #[inline]
    pub fn new(value: u8) -> (r: Self)
        ensures
            r.value() == value,
    {
        U8([value])
    }

    #[inline]
    pub fn get(&self) -> (r: u8)
        ensures
            r == self.value(),
    {
        self.0[0]
    }
}

impl U16 {
    /// The native value this wrapper stores.
    pub open spec fn value(self) -> int {
        be16(self.0[0], self.0[1])
    }

    #[inline]
    pub fn new(value: u16) -> (r: Self)
        ensures
            r.value() == value,
    {
        U16([(value / 0x100) as u8, (value % 0x100) as u8])
    }

    #[inline]
    pub fn get(&self) -> (r: u16)
        ensures
            r == self.value(),
    {
        self.0[0] as u16 * 0x100 + self.0[1] as u16
    }
}

impl U32 {
    /// The native value this wrapper stores.
    pub open spec fn value(self) -> int {
        be32(self.0[0], self.0[1], self.0[2], self.0[3])
    }

    #[inline]
    pub fn new(value: u32) -> (r: Self)
        ensures
            r.value() == value,
    {
        U32([
            (value / 0x100_0000) as u8,
            ((value / 0x1_0000) % 0x100) as u8,
            ((value / 0x100) % 0x100) as u8,
            (value % 0x100) as u8,
        ])
    }

    #[inline]
    pub fn get(&self) -> (r: u32)
        ensures
            r == self.value(),
    {
        self.0[0] as u32 * 0x100_0000 + self.0[1] as u32 * 0x1_0000 + self.0[2] as u32 * 0x100
            + self.0[3] as u32
    }
}

/// Round trip: a native value stored in network order is read back unchanged.
pub proof fn lemma_u8_round_trip(v: u8)
    ensures
        U8([v]).value() == v,
{
}

/// Round trip: a native `u16` stored in network order is read back unchanged.
pub proof fn lemma_u16_round_trip(v: u16)
    ensures
        be16((v / 0x100) as u8, (v % 0x100) as u8) == v,
{
}

/// Round trip: a native `u32` stored in network order is read back unchanged.
pub proof fn lemma_u32_round_trip(v: u32)
    ensures
        be32(
            (v / 0x100_0000) as u8,
            ((v / 0x1_0000) % 0x100) as u8,
            ((v / 0x100) % 0x100) as u8,
            (v % 0x100) as u8,
        ) == v,
{
}

} // verus!
