//! The UDP header: connectionless transport of messages, multiplexed by
//! port.
//!
//! UDP carries a checksum for data integrity but provides no further
//! reliability. A zero checksum field means the checksum is unused;
//! verification of a non-zero checksum against the IPv4 pseudo-header is a
//! documented extension point that is not implemented here.

use vstd::prelude::*;

use crate::error::Error;
use crate::header::error::HeaderTruncated;
use crate::header::primitive::{be16, U16};

verus! {

/// A UDP header: source and destination ports, the length of header plus
/// payload, and the checksum.
#[derive(Debug, Hash, PartialEq, Eq, PartialOrd, Ord, Clone, Copy)]
pub struct Udp {
    pub src_port: U16,
    pub dst_port: U16,
    pub len: U16,
    pub checksum: U16,
}

/// The header encoded by the first eight bytes of `b`.
pub open spec fn spec_udp(b: Seq<u8>) -> Udp {
    Udp {
        src_port: U16([b[0], b[1]]),
        dst_port: U16([b[2], b[3]]),
        len: U16([b[4], b[5]]),
        checksum: U16([b[6], b[7]]),
    }
}

impl Udp {
    /// Returns an immutable view of `bytes` as a UDP header followed by a
    /// payload. Succeeds on exactly the inputs that hold the full
    /// eight-byte header; performs no field validation (see
    /// [`Udp::parse`]).
    #[inline]
    pub fn from_bytes(bytes: &[u8]) -> (r: Result<(Self, &[u8]), HeaderTruncated>)
        ensures
            r is Ok <==> bytes@.len() >= 8,
            r is Ok ==> r.unwrap().0 == spec_udp(bytes@) && r.unwrap().1@ == bytes@.skip(8),
    {
        if bytes.len() < 8 {
            return Err(HeaderTruncated);
        }
        let header = Udp {
            src_port: U16([bytes[0], bytes[1]]),
            dst_port: U16([bytes[2], bytes[3]]),
            len: U16([bytes[4], bytes[5]]),
            checksum: U16([bytes[6], bytes[7]]),
        };
        let payload = vstd::slice::slice_subrange(bytes, 8, bytes.len());
        proof {
            assert(payload@ =~= bytes@.skip(8));
        }
        Ok((header, payload))
    }

    /// The semantic parse: the structural cast, then the one field check
    /// the format demands of every datagram. `Truncated` if the bytes
    /// cannot hold the header; `Malformed` if the declared length is below
    /// eight, the header's own size.
    pub fn parse(bytes: &[u8]) -> (r: Result<(Self, &[u8]), Error>)
        ensures
            r is Ok <==> bytes@.len() >= 8 && be16(bytes@[4], bytes@[5]) >= 8,
            r is Ok ==> r.unwrap().0 == spec_udp(bytes@) && r.unwrap().1@ == bytes@.skip(8),
            r is Err ==> r.unwrap_err() == (if bytes@.len() < 8 {
                Error::Truncated
            } else {
                Error::Malformed
            }),
    {
        let (header, payload) = match Self::from_bytes(bytes) {
            Ok(v) => v,
            Err(HeaderTruncated) => {
                return Err(Error::Truncated);
            },
        };
        if header.len.get() < 8 {
            return Err(Error::Malformed);
        }
        Ok((header, payload))
    }

    /// Returns the source port.
    #[inline]
    pub fn source_port(&self) -> (r: u16)
        ensures
            r == self.src_port.value(),
    {
        self.src_port.get()
    }

    /// Returns the destination port.
    #[inline]
    pub fn destination_port(&self) -> (r: u16)
        ensures
            r == self.dst_port.value(),
    {
        self.dst_port.get()
    }

    /// Returns the length of the UDP header and payload in bytes. A
    /// well-formed datagram declares at least 8, the header's own size.
    #[inline]
    pub fn len(&self) -> (r: u16)
        ensures
            r == self.len.value(),
    {
        self.len.get()
    }

    /// Returns the checksum of the UDP header. A zero field means the
    /// checksum is unused.
    #[inline]
    pub fn _checksum(&self) -> (r: u16)
        ensures
            r == self.checksum.value(),
    {
        self.checksum.get()
    }
}

/// Parsing is idempotent: the decoded header is a function of the input
/// bytes alone, so parsing the same immutable bytes twice yields views
/// with identical field values.
pub proof fn lemma_udp_parse_idempotent(b1: Seq<u8>, b2: Seq<u8>)
    requires
        b1 == b2,
    ensures
        spec_udp(b1) == spec_udp(b2),
{
}

} // verus!
