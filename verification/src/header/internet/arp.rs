//! The IPv4-over-Ethernet Address Resolution Protocol (ARP) header.
//!
//! Acting as a bridge between the internet and link layers, ARP resolves
//! the link layer address for a given internet address. Though the format
//! leaves room for other hardware and protocol types, in practice ARP only
//! resolves Ethernet addresses from IPv4 addresses, and the semantic parse
//! here enforces exactly that subset.

use vstd::prelude::*;

use crate::error::Error;
use crate::header::error::HeaderTruncated;
use crate::header::internet::ipv4::Ipv4Addr;
use crate::header::link::ethernet::{EtherAddr, EtherType, EtherTypeRepr};
use crate::header::primitive::{be16, U16, U8};

verus! {

/// An ARP hardware type: the link layer protocol whose addresses are being
/// resolved.
#[derive(Debug, Hash, PartialEq, Eq, PartialOrd, Ord, Copy, Clone, Structural)]
pub enum Hardware {
    Ethernet,
    Unknown(u16),
}

impl Hardware {
    /// The classification of a raw hardware type code.
    pub open spec fn spec_new(value: u16) -> Hardware {
        if value == 1 {
            Hardware::Ethernet
        } else {
            Hardware::Unknown(value)
        }
    }

    /// The raw code of a classification.
    pub open spec fn spec_get(self) -> u16 {
        match self {
            Hardware::Ethernet => 1,
            Hardware::Unknown(value) => value,
        }
    }

    /// Classifies a raw hardware type code.
    #[verifier::when_used_as_spec(spec_new)]
    #[inline]
    pub fn new(value: u16) -> (r: Self)
        ensures
            r == Hardware::spec_new(value),
    {
        match value {
            1 => Hardware::Ethernet,
            _ => Hardware::Unknown(value),
        }
    }

    /// The raw code this classification stands for.
    #[inline]
    pub fn get(&self) -> (r: u16)
        ensures
            r == self.spec_get(),
    {
        match *self {
            Hardware::Ethernet => 1,
            Hardware::Unknown(value) => value,
        }
    }
}

/// Classifying a raw hardware type and reading it back is lossless.
pub proof fn lemma_hardware_round_trip(value: u16)
    ensures
        Hardware::spec_new(value).spec_get() == value,
{
}

/// An ARP operation: a resolution request or the reply to one.
#[derive(Debug, Hash, PartialEq, Eq, PartialOrd, Ord, Copy, Clone, Structural)]
pub enum Operation {
    Request,
    Reply,
    Unknown(u16),
}

impl Operation {
    /// The classification of a raw operation code.
    pub open spec fn spec_new(value: u16) -> Operation {
        if value == 1 {
            Operation::Request
        } else if value == 2 {
            Operation::Reply
        } else {
            Operation::Unknown(value)
        }
    }

    /// The raw code of a classification.
    pub open spec fn spec_get(self) -> u16 {
        match self {
            Operation::Request => 1,
            Operation::Reply => 2,
            Operation::Unknown(value) => value,
        }
    }

    /// Classifies a raw operation code.
    #[verifier::when_used_as_spec(spec_new)]
    #[inline]
    pub fn new(value: u16) -> (r: Self)
        ensures
            r == Operation::spec_new(value),
    {
        match value {
            1 => Operation::Request,
            2 => Operation::Reply,
            _ => Operation::Unknown(value),
        }
    }

    /// The raw code this classification stands for.
    #[inline]
    pub fn get(&self) -> (r: u16)
        ensures
            r == self.spec_get(),
    {
        match *self {
            Operation::Request => 1,
            Operation::Reply => 2,
            Operation::Unknown(value) => value,
        }
    }
}

/// Classifying a raw operation code and reading it back is lossless.
pub proof fn lemma_operation_round_trip(value: u16)
    ensures
        Operation::spec_new(value).spec_get() == value,
{
}

/// The two network-endian bytes of a hardware type field.
#[derive(Debug, Hash, PartialEq, Eq, PartialOrd, Ord, Clone, Copy)]
pub struct HardwareRepr(pub U16);

impl HardwareRepr {
    /// The classification of the stored code.
    pub open spec fn spec_get(self) -> Hardware {
        Hardware::spec_new(be16(self.0.0[0], self.0.0[1]) as u16)
    }

    /// Get the underlying [`Hardware`].
    #[inline]
    pub(crate) fn get(&self) -> (r: Hardware)
        ensures
            r == self.spec_get(),
    {
        Hardware::new(self.0.get())
    }
}

/// The two network-endian bytes of an operation field.
#[derive(Debug, Hash, PartialEq, Eq, PartialOrd, Ord, Clone, Copy)]
pub struct OperationRepr(pub U16);

impl OperationRepr {
    /// The classification of the stored code.
    pub open spec fn spec_get(self) -> Operation {
        Operation::spec_new(be16(self.0.0[0], self.0.0[1]) as u16)
    }

    /// Get the underlying [`Operation`].
    #[inline]
    pub(crate) fn get(&self) -> (r: Operation)
        ensures
            r == self.spec_get(),
    {
        Operation::new(self.0.get())
    }
}

/// An IPv4 Ethernet ARP header: hardware and protocol types, address
/// lengths, the operation, and the four addresses.
#[derive(Debug, Hash, PartialEq, Eq, PartialOrd, Ord, Clone, Copy)]
pub struct Arp {
    pub htype: HardwareRepr,
    pub ptype: EtherTypeRepr,
    pub hlen: U8,
    pub plen: U8,
    pub oper: OperationRepr,
    pub src_haddr: EtherAddr,
    pub src_paddr: Ipv4Addr,
    pub dest_haddr: EtherAddr,
    pub dest_paddr: Ipv4Addr,
}

/// The header encoded by the first twenty-eight bytes of `b`.
pub open spec fn spec_arp(b: Seq<u8>) -> Arp {
    Arp {
        htype: HardwareRepr(U16([b[0], b[1]])),
        ptype: EtherTypeRepr(U16([b[2], b[3]])),
        hlen: U8([b[4]]),
        plen: U8([b[5]]),
        oper: OperationRepr(U16([b[6], b[7]])),
        src_haddr: EtherAddr([b[8], b[9], b[10], b[11], b[12], b[13]]),
        src_paddr: Ipv4Addr([b[14], b[15], b[16], b[17]]),
        dest_haddr: EtherAddr([b[18], b[19], b[20], b[21], b[22], b[23]]),
        dest_paddr: Ipv4Addr([b[24], b[25], b[26], b[27]]),
    }
}

/// The subset [`Arp::parse`] accepts beyond the structural cast: Ethernet
/// hardware, IPv4 protocol, and the matching address lengths six and four.
pub open spec fn spec_arp_supported(b: Seq<u8>) -> bool {
    &&& be16(b[0], b[1]) == 1
    &&& be16(b[2], b[3]) == 0x0800
    &&& b[4] == 6
    &&& b[5] == 4
}

impl Arp {
    /// Returns an immutable view of `bytes` as an ARP header followed by a
    /// payload. Succeeds on exactly the inputs that hold the full
    /// twenty-eight byte header; performs no field validation (see
    /// [`Arp::parse`]).
    #[inline]
    pub fn from_bytes(bytes: &[u8]) -> (r: Result<(Self, &[u8]), HeaderTruncated>)
        ensures
            r is Ok <==> bytes@.len() >= 28,
            r is Ok ==> r.unwrap().0 == spec_arp(bytes@) && r.unwrap().1@ == bytes@.skip(28),
    {
        if bytes.len() < 28 {
            return Err(HeaderTruncated);
        }
        let header = Arp {
            htype: HardwareRepr(U16([bytes[0], bytes[1]])),
            ptype: EtherTypeRepr(U16([bytes[2], bytes[3]])),
            hlen: U8([bytes[4]]),
            plen: U8([bytes[5]]),
            oper: OperationRepr(U16([bytes[6], bytes[7]])),
            src_haddr: EtherAddr(
                [bytes[8], bytes[9], bytes[10], bytes[11], bytes[12], bytes[13]],
            ),
            src_paddr: Ipv4Addr([bytes[14], bytes[15], bytes[16], bytes[17]]),
            dest_haddr: EtherAddr(
                [bytes[18], bytes[19], bytes[20], bytes[21], bytes[22], bytes[23]],
            ),
            dest_paddr: Ipv4Addr([bytes[24], bytes[25], bytes[26], bytes[27]]),
        };
        let payload = vstd::slice::slice_subrange(bytes, 28, bytes.len());
        proof {
            assert(payload@ =~= bytes@.skip(28));
        }
        Ok((header, payload))
    }

    /// The semantic parse: the structural cast, then enforcement of the
    /// only subset in practical use. `Truncated` if the bytes cannot hold
    /// the header; `Unsupported` unless the hardware type is Ethernet, the
    /// protocol type is IPv4, the hardware address length is six and the
    /// protocol address length is four.
    pub fn parse(bytes: &[u8]) -> (r: Result<(Self, &[u8]), Error>)
        ensures
            r is Ok <==> bytes@.len() >= 28 && spec_arp_supported(bytes@),
            r is Ok ==> r.unwrap().0 == spec_arp(bytes@) && r.unwrap().1@ == bytes@.skip(28),
            r is Err ==> r.unwrap_err() == (if bytes@.len() < 28 {
                Error::Truncated
            } else {
                Error::Unsupported
            }),
    {
        let (header, payload) = match Self::from_bytes(bytes) {
            Ok(v) => v,
            Err(HeaderTruncated) => {
                return Err(Error::Truncated);
            },
        };
        if !matches!(header.htype.get(), Hardware::Ethernet) {
            return Err(Error::Unsupported);
        }
        if !matches!(header.ptype.get(), EtherType::Ipv4) {
            return Err(Error::Unsupported);
        }
        if header.hlen.get() != 6 {
            return Err(Error::Unsupported);
        }
        if header.plen.get() != 4 {
            return Err(Error::Unsupported);
        }
        Ok((header, payload))
    }

    /// Link layer hardware type; the supported subset has only
    /// [`Hardware::Ethernet`].
    #[inline]
    pub fn hardware(&self) -> (r: Hardware)
        ensures
            r == self.htype.spec_get(),
    {
        self.htype.get()
    }

    /// Internet layer protocol type; shares the EtherType numbering space,
    /// and the supported subset has only [`EtherType::Ipv4`].
    #[inline]
    pub fn protocol(&self) -> (r: EtherType)
        ensures
            r == self.ptype.spec_get(),
    {
        self.ptype.get()
    }

    /// Link layer hardware address length in bytes; six in the supported
    /// subset.
    #[inline]
    pub fn hw_addr_len(&self) -> (r: u8)
        ensures
            r == self.hlen.value(),
    {
        self.hlen.get()
    }

    /// Internet layer address length in bytes; four in the supported
    /// subset.
    #[inline]
    pub fn proto_addr_len(&self) -> (r: u8)
        ensures
            r == self.plen.value(),
    {
        self.plen.get()
    }

    /// The ARP operation.
    #[inline]
    pub fn operation(&self) -> (r: Operation)
        ensures
            r == self.oper.spec_get(),
    {
        self.oper.get()
    }

    /// Source link layer address.
    #[inline]
    pub fn src_hw_addr(&self) -> (r: EtherAddr)
        ensures
            r == self.src_haddr,
    {
        self.src_haddr
    }

    /// Source internet layer address.
    #[inline]
    pub fn src_proto_addr(&self) -> (r: Ipv4Addr)
        ensures
            r == self.src_paddr,
    {
        self.src_paddr
    }

    /// Destination link layer address.
    #[inline]
    pub fn dest_hw_addr(&self) -> (r: EtherAddr)
        ensures
            r == self.dest_haddr,
    {
        self.dest_haddr
    }

    /// Destination internet layer address.
    #[inline]
    pub fn dest_proto_addr(&self) -> (r: Ipv4Addr)
        ensures
            r == self.dest_paddr,
    {
        self.dest_paddr
    }
}

/// Parsing is idempotent: the decoded header is a function of the input
/// bytes alone, so parsing the same immutable bytes twice yields views
/// with identical field values.
pub proof fn lemma_arp_parse_idempotent(b1: Seq<u8>, b2: Seq<u8>)
    requires
        b1 == b2,
    ensures
        spec_arp(b1) == spec_arp(b2),
{
}

} // verus!
