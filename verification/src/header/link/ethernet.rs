//! The EthernetII header: source and destination MAC addresses and an
//! EtherType naming the protocol carried in the frame's payload.

use vstd::prelude::*;

use crate::header::error::HeaderTruncated;
use crate::header::primitive::{be16, U16};

verus! {

/// An Ethernet protocol parameter: the protocol carried in the payload of
/// an Ethernet frame. Codes outside the known set are kept, not rejected,
/// so no numeric value is lost on the unknown path.
#[derive(Debug, Hash, PartialEq, Eq, PartialOrd, Ord, Clone, Copy, Structural)]
pub enum EtherType {
    Ipv4,
    Arp,
    Ipv6,
    Unknown(u16),
}

impl EtherType {
    /// The classification of a raw EtherType code.
    pub open spec fn spec_new(value: u16) -> EtherType {
        if value == 0x0800 {
            EtherType::Ipv4
        } else if value == 0x0806 {
            EtherType::Arp
        } else if value == 0x86DD {
            EtherType::Ipv6
        } else {
            EtherType::Unknown(value)
        }
    }

    /// The raw code of a classification.
    pub open spec fn spec_get(self) -> u16 {
        match self {
            EtherType::Ipv4 => 0x0800,
            EtherType::Arp => 0x0806,
            EtherType::Ipv6 => 0x86DD,
            EtherType::Unknown(value) => value,
        }
    }

    /// Classifies a raw EtherType code.
    #[verifier::when_used_as_spec(spec_new)]
    #[inline]
    pub fn new(value: u16) -> (r: Self)
        ensures
            r == EtherType::spec_new(value),
    {
        match value {
            0x0800 => EtherType::Ipv4,
            0x0806 => EtherType::Arp,
            0x86DD => EtherType::Ipv6,
            _ => EtherType::Unknown(value),
        }
    }

    /// The raw code this classification stands for.
    #[inline]
    pub fn get(&self) -> (r: u16)
        ensures
            r == self.spec_get(),
    {
        match *self {
            EtherType::Ipv4 => 0x0800,
            EtherType::Arp => 0x0806,
            EtherType::Ipv6 => 0x86DD,
            EtherType::Unknown(value) => value,
        }
    }
}

/// Classifying a raw code and reading it back is lossless.
pub proof fn lemma_ethertype_round_trip(value: u16)
    ensures
        EtherType::spec_new(value).spec_get() == value,
{
}

/// A 48-bit Ethernet address, commonly known as an Ethernet interface
/// identifier or MAC address. Bytes are network endian.
#[derive(Debug, Hash, PartialEq, Eq, PartialOrd, Ord, Copy, Clone)]
pub struct EtherAddr(pub [u8; 6]);

impl EtherAddr {
    /// An individual unicast address: group bit clear.
    pub open spec fn spec_is_unicast(self) -> bool {
        self.0[0] & 0x01 == 0
    }

    /// The all-ones broadcast address.
    pub open spec fn spec_is_broadcast(self) -> bool {
        self.0[0] == 0xFF && self.0[1] == 0xFF && self.0[2] == 0xFF && self.0[3] == 0xFF
            && self.0[4] == 0xFF && self.0[5] == 0xFF
    }

    /// A universally administered address: local bit clear.
    pub open spec fn spec_is_universal(self) -> bool {
        self.0[0] & 0x02 == 0
    }

    /// Create an EtherAddr from six network endian octets.
    #[inline]
    pub fn new(bytes: [u8; 6]) -> (r: Self)
        ensures
            r.0 == bytes,
    {
        Self(bytes)
    }

    /// The broadcast address: all nodes listen to frames sent to it.
    #[inline]
    pub fn broadcast() -> (r: Self)
        ensures
            r.spec_is_broadcast(),
    {
        Self([0xFF, 0xFF, 0xFF, 0xFF, 0xFF, 0xFF])
    }

    /// Convert EtherAddr to a sequence of octets. Bytes are network endian.
    #[inline]
    pub fn as_bytes(&self) -> (r: &[u8])
        ensures
            r@ == self.0@,
    {
        self.0.as_slice()
    }

    /// Returns `true` if EtherAddr is an individual unicast address.
    #[inline]
    pub fn is_unicast(&self) -> (r: bool)
        ensures
            r == self.spec_is_unicast(),
    {
        self.0[0] & 0x01 == 0
    }

    /// Returns `true` if EtherAddr is a group multicast address.
    #[inline]
    pub fn is_multicast(&self) -> (r: bool)
        ensures
            r == !self.spec_is_unicast(),
    {
        !self.is_unicast()
    }

    /// Returns `true` if EtherAddr is the broadcast address.
    #[inline]
    pub fn is_broadcast(&self) -> (r: bool)
        ensures
            r == self.spec_is_broadcast(),
    {
        self.0[0] == 0xFF && self.0[1] == 0xFF && self.0[2] == 0xFF && self.0[3] == 0xFF
            && self.0[4] == 0xFF && self.0[5] == 0xFF
    }

    /// Returns `true` if EtherAddr is universally administered.
    #[inline]
    pub fn is_universal(&self) -> (r: bool)
        ensures
            r == self.spec_is_universal(),
    {
        self.0[0] & 0x02 == 0
    }

    /// Returns `true` if EtherAddr is locally administered.
    #[inline]
    pub fn is_local(&self) -> (r: bool)
        ensures
            r == !self.spec_is_universal(),
    {
        !self.is_universal()
    }
}

/// The two network-endian bytes of an EtherType field as they stand in a
/// frame.
#[derive(Debug, Hash, PartialEq, Eq, PartialOrd, Ord, Clone, Copy)]
pub struct EtherTypeRepr(pub U16);

impl EtherTypeRepr {
    /// The classification of the stored code.
    pub open spec fn spec_get(self) -> EtherType {
        EtherType::spec_new(be16(self.0.0[0], self.0.0[1]) as u16)
    }

    /// Get the underlying [`EtherType`].
    #[inline]
    pub(crate) fn get(&self) -> (r: EtherType)
        ensures
            r == self.spec_get(),
    {
        EtherType::new(self.0.get())
    }
}

/// An EthernetII frame header: 48-bit source and destination MAC addresses
/// and an EtherType naming the protocol contained in the frame's payload.
/// The optional 802.1Q tag is not included.
#[derive(Debug, Hash, PartialEq, Eq, PartialOrd, Ord, Clone, Copy)]
pub struct EthernetII {
    pub dst: EtherAddr,
    pub src: EtherAddr,
    pub ty: EtherTypeRepr,
}

/// The header encoded by the first fourteen bytes of `b`.
pub open spec fn spec_ethernet(b: Seq<u8>) -> EthernetII {
    EthernetII {
        dst: EtherAddr([b[0], b[1], b[2], b[3], b[4], b[5]]),
        src: EtherAddr([b[6], b[7], b[8], b[9], b[10], b[11]]),
        ty: EtherTypeRepr(U16([b[12], b[13]])),
    }
}

impl EthernetII {
    /// Returns an immutable view of `bytes` as an EthernetII header
    /// followed by a payload. Succeeds on exactly the inputs that hold a
    /// full fixed-size header; the cast performs no field validation, and
    /// an unknown EtherType is classified, not rejected.
    #[inline]
    pub fn from_bytes(bytes: &[u8]) -> (r: Result<(Self, &[u8]), HeaderTruncated>)
        ensures
            r is Ok <==> bytes@.len() >= 14,
            r is Ok ==> r.unwrap().0 == spec_ethernet(bytes@) && r.unwrap().1@ == bytes@.skip(14),
    {
        if bytes.len() < 14 {
            return Err(HeaderTruncated);
        }
        let header = EthernetII {
            dst: EtherAddr([bytes[0], bytes[1], bytes[2], bytes[3], bytes[4], bytes[5]]),
            src: EtherAddr([bytes[6], bytes[7], bytes[8], bytes[9], bytes[10], bytes[11]]),
            ty: EtherTypeRepr(U16([bytes[12], bytes[13]])),
        };
        let payload = vstd::slice::slice_subrange(bytes, 14, bytes.len());
        proof {
            assert(payload@ =~= bytes@.skip(14));
        }
        Ok((header, payload))
    }

    /// Returns the source Ethernet address.
    #[inline]
    pub fn src(&self) -> (r: EtherAddr)
        ensures
            r == self.src,
    {
        self.src
    }

    /// Returns the destination Ethernet address.
    #[inline]
    pub fn dst(&self) -> (r: EtherAddr)
        ensures
            r == self.dst,
    {
        self.dst
    }

    /// Returns the EtherType of the frame.
    #[inline]
    pub fn ethertype(&self) -> (r: EtherType)
        ensures
            r == self.ty.spec_get(),
    {
        self.ty.get()
    }
}

/// Parsing is idempotent: the decoded header is a function of the input
/// bytes alone, so parsing the same immutable bytes twice yields views
/// with identical field values.
pub proof fn lemma_ethernet_parse_idempotent(b1: Seq<u8>, b2: Seq<u8>)
    requires
        b1 == b2,
    ensures
        spec_ethernet(b1) == spec_ethernet(b2),
{
}

} // verus!
