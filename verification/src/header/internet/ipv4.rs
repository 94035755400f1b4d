//! The IPv4 header: 32-bit addressing and fragmentation fields, followed
//! by up to forty bytes of options.
//!
//! [`Ipv4::from_bytes`] is the structural cast: it checks sizes only. The
//! semantic entry point [`Ipv4::parse`] layers field validation and
//! checksum verification on top of the cast.

use vstd::prelude::*;

use crate::error::Error;
use crate::header::checksum::spec_checksum;
use crate::header::checksum::verify_checksum;
use crate::header::error::HeaderTruncated;
use crate::header::internet::ip::{Dscp, Ecn, IpProtocol, IpVersion, ProtocolRepr};
use crate::header::primitive::{be16, U16, U8};

verus! {

/// The three flag bits of an IPv4 header. The first (reserved) bit must be
/// zero; the others are Don't Fragment and More Fragments.
#[derive(Debug, Hash, PartialEq, Eq, PartialOrd, Ord, Copy, Clone, Structural)]
pub enum Ipv4Flags {
    /// Last Fragment
    LF,
    /// More Fragments
    MF,
    /// Don't Fragment
    DF,
    Unknown(u8),
}

impl Ipv4Flags {
    /// The classification of a raw 3-bit flag combination.
    pub open spec fn spec_new(value: u8) -> Ipv4Flags {
        if value == 0b000 {
            Ipv4Flags::LF
        } else if value == 0b001 {
            Ipv4Flags::MF
        } else if value == 0b010 {
            Ipv4Flags::DF
        } else {
            Ipv4Flags::Unknown(value)
        }
    }

    /// The raw bits of a classification.
    pub open spec fn spec_get(self) -> u8 {
        match self {
            Ipv4Flags::LF => 0b000,
            Ipv4Flags::MF => 0b001,
            Ipv4Flags::DF => 0b010,
            Ipv4Flags::Unknown(value) => value,
        }
    }

    /// Classifies a raw 3-bit flag combination.
    #[verifier::when_used_as_spec(spec_new)]
    #[inline]
    pub fn new(value: u8) -> (r: Self)
        ensures
            r == Ipv4Flags::spec_new(value),
    {
        match value {
            0b000 => Ipv4Flags::LF,
            0b001 => Ipv4Flags::MF,
            0b010 => Ipv4Flags::DF,
            _ => Ipv4Flags::Unknown(value),
        }
    }

    /// The raw bits this classification stands for.
    #[inline]
    pub fn get(&self) -> (r: u8)
        ensures
            r == self.spec_get(),
    {
        match *self {
            Ipv4Flags::LF => 0b000,
            Ipv4Flags::MF => 0b001,
            Ipv4Flags::DF => 0b010,
            Ipv4Flags::Unknown(value) => value,
        }
    }
}

/// Classifying raw flag bits and reading them back is lossless.
pub proof fn lemma_ipv4_flags_round_trip(value: u8)
    ensures
        Ipv4Flags::spec_new(value).spec_get() == value,
{
}

/// A 32-bit IPv4 address. Bytes are network endian.
#[derive(Debug, Hash, PartialEq, Eq, PartialOrd, Ord, Copy, Clone)]
pub struct Ipv4Addr(pub [u8; 4]);

impl Ipv4Addr {
    /// The 'unspecified' (or 'any') address `0.0.0.0`.
    pub open spec fn spec_is_unspecified(self) -> bool {
        self.0[0] == 0 && self.0[1] == 0 && self.0[2] == 0 && self.0[3] == 0
    }

    /// The 'loopback' block `127.0.0.0/8`.
    pub open spec fn spec_is_loopback(self) -> bool {
        self.0[0] == 127
    }

    /// The 'private' blocks `10.0.0.0/8`, `172.16.0.0/12` and
    /// `192.168.0.0/16`.
    pub open spec fn spec_is_private(self) -> bool {
        self.0[0] == 10 || (self.0[0] == 172 && (self.0[1] & 0b1111_0000 == 16)) || (self.0[0]
            == 192 && self.0[1] == 168)
    }

    /// The 'link-local' block `169.254.0.0/16`.
    pub open spec fn spec_is_link_local(self) -> bool {
        self.0[0] == 169 && self.0[1] == 254
    }

    /// The 'shared' block `100.64.0.0/10`.
    pub open spec fn spec_is_shared(self) -> bool {
        self.0[0] == 100 && (self.0[1] & 0b1100_0000 == 64)
    }

    /// The 'benchmarking' block `198.18.0.0/15`.
    pub open spec fn spec_is_benchmarking(self) -> bool {
        self.0[0] == 198 && (self.0[1] & 0b1111_1110 == 18)
    }

    /// The 'reserved' block `240.0.0.0/4`, excluding the broadcast address.
    pub open spec fn spec_is_reserved(self) -> bool {
        (self.0[0] & 0b1111_0000 == 240) && !self.spec_is_broadcast()
    }

    /// The 'multicast' block `224.0.0.0/4`.
    pub open spec fn spec_is_multicast(self) -> bool {
        self.0[0] & 0b1111_0000 == 224
    }

    /// The 'broadcast' address `255.255.255.255`.
    pub open spec fn spec_is_broadcast(self) -> bool {
        self.0[0] == 255 && self.0[1] == 255 && self.0[2] == 255 && self.0[3] == 255
    }

    /// The 'documentation' blocks `192.0.2.0/24`, `198.51.100.0/24` and
    /// `203.0.113.0/24`.
    pub open spec fn spec_is_documentation(self) -> bool {
        (self.0[0] == 192 && self.0[1] == 0 && self.0[2] == 2) || (self.0[0] == 198 && self.0[1]
            == 51 && self.0[2] == 100) || (self.0[0] == 203 && self.0[1] == 0 && self.0[2] == 113)
    }

    /// Globally routable: none of the special-purpose blocks, except the
    /// two anycast addresses `192.0.0.9` and `192.0.0.10`.
    pub open spec fn spec_is_global(self) -> bool {
        if self.0[0] == 192 && self.0[1] == 0 && self.0[2] == 0 && (self.0[3] == 9 || self.0[3]
            == 10) {
            true
        } else {
            !self.spec_is_private() && !self.spec_is_loopback() && !self.spec_is_link_local()
                && !self.spec_is_broadcast() && !self.spec_is_documentation()
                && !self.spec_is_shared() && !(self.0[0] == 192 && self.0[1] == 0 && self.0[2]
                == 0) && !self.spec_is_reserved() && !self.spec_is_benchmarking() && self.0[0] != 0
        }
    }

    /// Create an Ipv4Addr from four network endian octets.
    #[inline]
    pub fn new(bytes: [u8; 4]) -> (r: Self)
        ensures
            r.0 == bytes,
    {
        Self(bytes)
    }

    /// The 'localhost' address `127.0.0.1`.
    #[inline]
    pub fn localhost() -> (r: Self)
        ensures
            r.0 == [127u8, 0u8, 0u8, 1u8],
    {
        Self([127, 0, 0, 1])
    }

    /// The 'unspecified' address `0.0.0.0`.
    #[inline]
    pub fn unspecified() -> (r: Self)
        ensures
            r.spec_is_unspecified(),
    {
        Self([0, 0, 0, 0])
    }

    /// The 'broadcast' address `255.255.255.255`.
    #[inline]
    pub fn broadcast() -> (r: Self)
        ensures
            r.spec_is_broadcast(),
    {
        Self([255, 255, 255, 255])
    }

    /// Convert Ipv4Addr to a sequence of octets. Bytes are network endian.
    #[inline]
    pub fn as_bytes(&self) -> (r: &[u8])
        ensures
            r@ == self.0@,
    {
        self.0.as_slice()
    }

    /// Returns `true` if address is the 'unspecified' (or 'any') address.
    #[inline]
    pub fn is_unspecified(&self) -> (r: bool)
        ensures
            r == self.spec_is_unspecified(),
    {
        self.0[0] == 0 && self.0[1] == 0 && self.0[2] == 0 && self.0[3] == 0
    }

    /// Returns `true` if address belongs to the 'loopback' block.
    #[inline]
    pub fn is_loopback(&self) -> (r: bool)
        ensures
            r == self.spec_is_loopback(),
    {
        self.0[0] == 127
    }

    /// Returns `true` if address belongs to one of the 'private' blocks.
    #[inline]
    pub fn is_private(&self) -> (r: bool)
        ensures
            r == self.spec_is_private(),
    {
        self.0[0] == 10 || (self.0[0] == 172 && (self.0[1] & 0b1111_0000 == 16)) || (self.0[0]
            == 192 && self.0[1] == 168)
    }

    /// Returns `true` if address belongs to the 'link-local' block.
    #[inline]
    pub fn is_link_local(&self) -> (r: bool)
        ensures
            r == self.spec_is_link_local(),
    {
        self.0[0] == 169 && self.0[1] == 254
    }

    /// Returns `true` if address belongs to the 'shared' block.
    #[inline]
    pub fn is_shared(&self) -> (r: bool)
        ensures
            r == self.spec_is_shared(),
    {
        self.0[0] == 100 && (self.0[1] & 0b1100_0000 == 64)
    }

    /// Returns `true` if address belongs to the 'benchmarking' block.
    #[inline]
    pub fn is_benchmarking(&self) -> (r: bool)
        ensures
            r == self.spec_is_benchmarking(),
    {
        self.0[0] == 198 && (self.0[1] & 0b1111_1110 == 18)
    }

    /// Returns `true` if address belongs to the 'reserved' block,
    /// excluding the broadcast address.
    #[inline]
    pub fn is_reserved(&self) -> (r: bool)
        ensures
            r == self.spec_is_reserved(),
    {
        (self.0[0] & 0b1111_0000 == 240) && !self.is_broadcast()
    }

    /// Returns `true` if address belongs to the 'multicast' block.
    #[inline]
    pub fn is_multicast(&self) -> (r: bool)
        ensures
            r == self.spec_is_multicast(),
    {
        self.0[0] & 0b1111_0000 == 224
    }

    /// Returns `true` if address is the 'broadcast' address.
    #[inline]
    pub fn is_broadcast(&self) -> (r: bool)
        ensures
            r == self.spec_is_broadcast(),
    {
        self.0[0] == 255 && self.0[1] == 255 && self.0[2] == 255 && self.0[3] == 255
    }

    /// Returns `true` if address belongs to one of the 'documentation'
    /// blocks.
    #[inline]
    pub fn is_documentation(&self) -> (r: bool)
        ensures
            r == self.spec_is_documentation(),
    {
        match (self.0[0], self.0[1], self.0[2]) {
            (192, 0, 2) => true,
            (198, 51, 100) => true,
            (203, 0, 113) => true,
            _ => false,
        }
    }

    /// Returns `true` if the address is globally routable: none of the
    /// special-purpose blocks, except the two anycast addresses
    /// `192.0.0.9` and `192.0.0.10`, which are globally routable.
    #[inline]
    pub fn is_global(&self) -> (r: bool)
        ensures
            r == self.spec_is_global(),
    {
        // Port Control Protocol Anycast, and
        // Traversal Using Relays around NAT Anycast
        if self.0[0] == 192 && self.0[1] == 0 && self.0[2] == 0 && (self.0[3] == 9 || self.0[3]
            == 10) {
            return true;
        }
        !self.is_private() && !self.is_loopback() && !self.is_link_local() && !self.is_broadcast()
            && !self.is_documentation() && !self.is_shared()
            // addresses reserved for future protocols (`192.0.0.0/24`)
            && !(self.0[0] == 192 && self.0[1] == 0 && self.0[2] == 0) && !self.is_reserved()
            && !self.is_benchmarking()
            // the whole 0.0.0.0/8 block is never global
            && self.0[0] != 0
    }
}

/// The version and header-length nibble pair: the first byte of an IPv4
/// header.
#[derive(Debug, Hash, PartialEq, Eq, PartialOrd, Ord, Clone, Copy)]
pub struct VerIhl(pub U8);

impl VerIhl {
    /// The raw version nibble (the high one).
    pub open spec fn spec_version(self) -> u8 {
        self.0.0[0] / 16
    }

    /// The header length in bytes: the low nibble counts 32-bit words.
    pub open spec fn spec_header_len(self) -> int {
        (self.0.0[0] % 16) * 4
    }

    /// The options length in bytes: what the declared header length holds
    /// beyond the twenty required bytes, saturating at zero.
    pub open spec fn spec_options_len(self) -> int {
        if self.spec_header_len() >= 20 {
            self.spec_header_len() - 20
        } else {
            0
        }
    }

    /// The classified IP version from the high nibble.
    #[inline]
    pub fn version(&self) -> (r: IpVersion)
        ensures
            r == IpVersion::spec_new(self.spec_version()),
    {
        IpVersion::new(self.0.0[0] / 16)
    }

    /// The IPv4 header length in bytes.
    #[inline]
    pub fn header_len(&self) -> (r: usize)
        ensures
            r == self.spec_header_len(),
    {
        (self.0.0[0] % 16) as usize * 4
    }

    /// The IPv4 header length beyond the required twenty bytes.
    #[inline]
    pub fn options_len(&self) -> (r: usize)
        ensures
            r == self.spec_options_len(),
    {
        let hl = self.header_len();
        if hl >= 20 {
            hl - 20
        } else {
            0
        }
    }
}

/// The Differentiated Services byte: a six-bit codepoint and a two-bit
/// congestion notification.
#[derive(Debug, Hash, PartialEq, Eq, PartialOrd, Ord, Clone, Copy)]
pub struct DiffServ(pub U8);

impl DiffServ {
    /// The raw six-bit codepoint (the high bits).
    pub open spec fn spec_dscp(self) -> u8 {
        self.0.0[0] / 4
    }

    /// The raw two-bit congestion notification (the low bits).
    pub open spec fn spec_ecn(self) -> u8 {
        self.0.0[0] % 4
    }

    /// The Differentiated Services codepoint, a `u6`.
    #[inline]
    pub fn dscp(&self) -> (r: Dscp)
        ensures
            r == (Dscp(self.spec_dscp())),
            r.spec_valid(),
    {
        Dscp(self.0.0[0] / 4)
    }

    /// The Explicit Congestion Notification, a `u2`.
    #[inline]
    pub fn ecn(&self) -> (r: Ecn)
        ensures
            r == Ecn::spec_new(self.spec_ecn()),
    {
        Ecn::new(self.0.0[0] % 4)
    }
}

/// The two bytes holding the three flag bits and the thirteen-bit fragment
/// offset.
#[derive(Debug, Hash, PartialEq, Eq, PartialOrd, Ord, Clone, Copy)]
pub struct FlagsFragOffset(pub U16);

impl FlagsFragOffset {
    /// The raw three flag bits (the high ones).
    pub open spec fn spec_flags(self) -> u8 {
        (be16(self.0.0[0], self.0.0[1]) / 0x2000) as u8
    }

    /// The thirteen-bit fragment offset (the low bits).
    pub open spec fn spec_frag_offset(self) -> u16 {
        (be16(self.0.0[0], self.0.0[1]) % 0x2000) as u16
    }

    /// The classified flag bits, a `u3`.
    #[inline]
    pub fn flags(&self) -> (r: Ipv4Flags)
        ensures
            r == Ipv4Flags::spec_new(self.spec_flags()),
    {
        Ipv4Flags::new((self.0.get() / 0x2000) as u8)
    }

    /// The fragment offset, a `u13`.
    #[inline]
    pub fn frag_offset(&self) -> (r: u16)
        ensures
            r == self.spec_frag_offset(),
    {
        self.0.get() % 0x2000
    }
}

/// The twenty required bytes of an IPv4 header, decoded field by field.
#[derive(Debug, Hash, PartialEq, Eq, PartialOrd, Ord, Clone, Copy)]
pub struct Ipv4Required {
    pub ver_ihl: VerIhl,
    pub diff_serv: DiffServ,
    pub tlen: U16,
    pub id: U16,
    pub flag_frag: FlagsFragOffset,
    pub ttl: U8,
    pub proto: ProtocolRepr,
    pub cks: U16,
    pub src: Ipv4Addr,
    pub dst: Ipv4Addr,
}

/// The required header fields encoded by the first twenty bytes of `b`.
pub open spec fn spec_ipv4_required(b: Seq<u8>) -> Ipv4Required {
    Ipv4Required {
        ver_ihl: VerIhl(U8([b[0]])),
        diff_serv: DiffServ(U8([b[1]])),
        tlen: U16([b[2], b[3]]),
        id: U16([b[4], b[5]]),
        flag_frag: FlagsFragOffset(U16([b[6], b[7]])),
        ttl: U8([b[8]]),
        proto: ProtocolRepr(U8([b[9]])),
        cks: U16([b[10], b[11]]),
        src: Ipv4Addr([b[12], b[13], b[14], b[15]]),
        dst: Ipv4Addr([b[16], b[17], b[18], b[19]]),
    }
}

/// The declared options length of the header starting `b`: bytes of header
/// beyond the required twenty, saturating at zero.
pub open spec fn spec_options_len(b: Seq<u8>) -> int {
    spec_ipv4_required(b).ver_ihl.spec_options_len()
}

/// `b` holds the twenty required bytes and the options its first byte
/// declares: the structural cast succeeds on exactly these inputs.
pub open spec fn spec_ipv4_structural_ok(b: Seq<u8>) -> bool {
    b.len() >= 20 && b.len() - 20 >= spec_options_len(b)
}

/// Every semantic check that [`Ipv4::parse`] makes beyond the structural
/// cast: version four, a header length of at least twenty bytes, a clear
/// reserved flag bit, a recognized protocol, and a checksum that verifies
/// over exactly the declared header bytes.
pub open spec fn spec_ipv4_valid(b: Seq<u8>) -> bool {
    let required = spec_ipv4_required(b);
    &&& spec_ipv4_structural_ok(b)
    &&& required.ver_ihl.spec_version() == 4
    &&& required.ver_ihl.spec_header_len() >= 20
    &&& required.flag_frag.spec_flags() < 4
    &&& required.proto.spec_get().spec_is_known()
    &&& spec_checksum(b.subrange(0, required.ver_ihl.spec_header_len())) == 0xFFFF
}

/// The error [`Ipv4::parse`] returns on `b`: the first check that fails,
/// in the order the checks are layered.
pub open spec fn spec_ipv4_parse_err(b: Seq<u8>) -> Error {
    let required = spec_ipv4_required(b);
    if !spec_ipv4_structural_ok(b) {
        Error::Truncated
    } else if required.ver_ihl.spec_version() != 4 {
        Error::Unsupported
    } else if required.ver_ihl.spec_header_len() < 20 {
        Error::Malformed
    } else if required.flag_frag.spec_flags() >= 4 {
        Error::Malformed
    } else if !required.proto.spec_get().spec_is_known() {
        Error::Unsupported
    } else {
        Error::Checksum
    }
}

/// An IPv4 header: the twenty required bytes decoded into fields, plus the
/// options bytes as a borrowed slice. Options are dynamic in length, so
/// they are returned as a split slice rather than modeled as discrete
/// option types.
#[derive(Debug, Hash, PartialEq, Eq, PartialOrd, Ord, Clone, Copy)]
pub struct Ipv4<'a> {
    pub required: Ipv4Required,
    pub options: &'a [u8],
}

impl<'a> Ipv4<'a> {
    /// Returns an immutable view of `bytes` as an IPv4 header followed by
    /// a payload. Succeeds on exactly the inputs that hold the twenty
    /// required bytes plus the options the first byte declares; performs
    /// no field validation (see [`Ipv4::parse`]). Since options are
    /// dynamic in length they are returned inside the header as a separate
    /// slice.
    #[inline]
    pub fn from_bytes(bytes: &'a [u8]) -> (r: Result<(Self, &'a [u8]), HeaderTruncated>)
        ensures
            r is Ok <==> spec_ipv4_structural_ok(bytes@),
            r is Ok ==> ({
                let (h, p) = r.unwrap();
                &&& h.required == spec_ipv4_required(bytes@)
                &&& h.options@ == bytes@.subrange(20, 20 + spec_options_len(bytes@))
                &&& p@ == bytes@.skip(20 + spec_options_len(bytes@))
            }),
    {
        if bytes.len() < 20 {
            return Err(HeaderTruncated);
        }
        let required = Ipv4Required {
            ver_ihl: VerIhl(U8([bytes[0]])),
            diff_serv: DiffServ(U8([bytes[1]])),
            tlen: U16([bytes[2], bytes[3]]),
            id: U16([bytes[4], bytes[5]]),
            flag_frag: FlagsFragOffset(U16([bytes[6], bytes[7]])),
            ttl: U8([bytes[8]]),
            proto: ProtocolRepr(U8([bytes[9]])),
            cks: U16([bytes[10], bytes[11]]),
            src: Ipv4Addr([bytes[12], bytes[13], bytes[14], bytes[15]]),
            dst: Ipv4Addr([bytes[16], bytes[17], bytes[18], bytes[19]]),
        };
        let options_len = required.ver_ihl.options_len();
        if bytes.len() - 20 < options_len {
            return Err(HeaderTruncated);
        }
        let options = vstd::slice::slice_subrange(bytes, 20, 20 + options_len);
        let payload = vstd::slice::slice_subrange(bytes, 20 + options_len, bytes.len());
        Ok((Ipv4 { required, options }, payload))
    }

    /// The semantic parse: the structural cast, then field validation,
    /// then checksum verification over exactly the declared header length.
    /// `Truncated` if the bytes cannot hold the header; `Unsupported` on a
    /// version other than four or an unrecognized protocol; `Malformed` on
    /// a header length below twenty bytes or a set reserved flag bit;
    /// `Checksum` when the header bytes do not verify. The declared total
    /// length is not held against the bytes available, so a parsed header
    /// may promise more payload than the slice carries.
    pub fn parse(bytes: &'a [u8]) -> (r: Result<(Self, &'a [u8]), Error>)
        ensures
            r is Ok <==> spec_ipv4_valid(bytes@),
            r is Ok ==> ({
                let (h, p) = r.unwrap();
                &&& h.required == spec_ipv4_required(bytes@)
                &&& h.options@ == bytes@.subrange(20, 20 + spec_options_len(bytes@))
                &&& p@ == bytes@.skip(20 + spec_options_len(bytes@))
            }),
            r is Err ==> r.unwrap_err() == spec_ipv4_parse_err(bytes@),
    {
        let (header, payload) = match Self::from_bytes(bytes) {
            Ok(v) => v,
            Err(HeaderTruncated) => {
                return Err(Error::Truncated);
            },
        };
        let version = header.required.ver_ihl.0.0[0] / 16;
        if version != 4 {
            return Err(Error::Unsupported);
        }
        let header_len = header.required.ver_ihl.header_len();
        if header_len < 20 {
            return Err(Error::Malformed);
        }
        if header.required.flag_frag.0.get() / 0x2000 >= 4 {
            return Err(Error::Malformed);
        }
        if let IpProtocol::Unknown(_) = header.required.proto.get() {
            return Err(Error::Unsupported);
        }
        let header_bytes = vstd::slice::slice_subrange(bytes, 0, header_len);
        if verify_checksum(header_bytes).is_err() {
            return Err(Error::Checksum);
        }
        Ok((header, payload))
    }

    /// Returns the IP version declared by the high nibble; after a
    /// successful [`Ipv4::parse`] this is always [`IpVersion::Ipv4`].
    #[inline]
    pub fn version(&self) -> (r: IpVersion)
        ensures
            r == IpVersion::spec_new(self.required.ver_ihl.spec_version()),
    {
        self.required.ver_ihl.version()
    }

    /// Returns the length of the IPv4 header in bytes. A header with no
    /// options is 20 bytes; one with the maximum options is 60 bytes.
    #[inline]
    pub fn header_len(&self) -> (r: usize)
        ensures
            r == self.required.ver_ihl.spec_header_len(),
    {
        self.required.ver_ihl.header_len()
    }

    /// Returns the length of the IPv4 options in bytes, up to 40.
    #[inline]
    pub fn options_len(&self) -> (r: usize)
        ensures
            r == self.required.ver_ihl.spec_options_len(),
    {
        self.required.ver_ihl.options_len()
    }

    /// Returns the Differentiated Services codepoint (DSCP) used to
    /// classify and manage network traffic.
    #[inline]
    pub fn dscp(&self) -> (r: Dscp)
        ensures
            r == (Dscp(self.required.diff_serv.spec_dscp())),
            r.spec_valid(),
    {
        self.required.diff_serv.dscp()
    }

    /// Returns the Explicit Congestion Notification (ECN), an optional
    /// feature used to indicate impending congestion.
    #[inline]
    pub fn ecn(&self) -> (r: Ecn)
        ensures
            r == Ecn::spec_new(self.required.diff_serv.spec_ecn()),
    {
        self.required.diff_serv.ecn()
    }

    /// Returns the total length of the IPv4 packet, link-layer header
    /// excluded. For fragments this is the fragment's length, not the
    /// assembled packet's.
    #[inline]
    pub fn total_len(&self) -> (r: u16)
        ensures
            r == self.required.tlen.value(),
    {
        self.required.tlen.get()
    }

    /// Returns the packet's ID. Fragments with the same ID are assembled
    /// together.
    #[inline]
    pub fn id(&self) -> (r: u16)
        ensures
            r == self.required.id.value(),
    {
        self.required.id.get()
    }

    /// Returns the classified flag bits.
    #[inline]
    pub fn flags(&self) -> (r: Ipv4Flags)
        ensures
            r == Ipv4Flags::spec_new(self.required.flag_frag.spec_flags()),
    {
        self.required.flag_frag.flags()
    }

    /// Returns the fragment offset.
    #[inline]
    pub fn offset(&self) -> (r: u16)
        ensures
            r == self.required.flag_frag.spec_frag_offset(),
    {
        self.required.flag_frag.frag_offset()
    }

    /// Returns the time to live.
    #[inline]
    pub fn ttl(&self) -> (r: u8)
        ensures
            r == self.required.ttl.value(),
    {
        self.required.ttl.get()
    }

    /// Returns the classified protocol encapsulated in the packet.
    #[inline]
    pub fn protocol(&self) -> (r: IpProtocol)
        ensures
            r == self.required.proto.spec_get(),
    {
        self.required.proto.get()
    }

    /// Returns the header checksum field.
    #[inline]
    pub fn cks(&self) -> (r: u16)
        ensures
            r == self.required.cks.value(),
    {
        self.required.cks.get()
    }

    /// Returns the source IPv4 address.
    #[inline]
    pub fn src(&self) -> (r: Ipv4Addr)
        ensures
            r == self.required.src,
    {
        self.required.src
    }

    /// Returns the destination IPv4 address.
    #[inline]
    pub fn dst(&self) -> (r: Ipv4Addr)
        ensures
            r == self.required.dst,
    {
        self.required.dst
    }

    /// Returns an iterator over the header's options.
    #[inline]
    pub fn options(&self) -> (r: Ipv4Options<'a>)
        ensures
            r.options@ == self.options@,
    {
        Ipv4Options { options: self.options }
    }
}

/// A walker over a header's options bytes. No IPv4 options are modeled as
/// discrete types yet, so stepping it immediately yields nothing.
#[derive(Debug, Hash, PartialEq, Eq, PartialOrd, Ord, Clone, Copy)]
pub struct Ipv4Options<'a> {
    pub options: &'a [u8],
}

impl<'a> Ipv4Options<'a> {
    /// The next discrete option, of which none are modeled.
    #[inline]
    pub fn next(&mut self) -> (r: Option<Ipv4Option>)
        ensures
            r is None,
    {
        None
    }
}

/// A discrete IPv4 option. No options are modeled as discrete types yet,
/// so the walker never produces a value of this type.
#[derive(Debug, Clone, Copy, PartialEq, Eq, Structural)]
pub enum Ipv4Option {
    /// An option byte not modeled further.
    Unknown(u8),
}

/// Flipping any single bit of a valid IPv4 header's declared bytes makes
/// its checksum verification fail. (Replacing the checksum field by its
/// complement substitutes sixteen bits at once, which this statement does
/// not cover: that is the algorithm's known non-distinguishing case.)
pub proof fn lemma_ipv4_bit_flip_detected(b: Seq<u8>, i: int, j: u8)
    requires
        spec_ipv4_valid(b),
        0 <= i < spec_ipv4_required(b).ver_ihl.spec_header_len(),
        j < 8,
    ensures
        spec_checksum(
            b.subrange(0, spec_ipv4_required(b).ver_ihl.spec_header_len()).update(
                i,
                (b[i] ^ (1u8 << j)),
            ),
        ) != 0xFFFF,
{
    let hl = spec_ipv4_required(b).ver_ihl.spec_header_len();
    let hb = b.subrange(0, hl);
    crate::header::checksum::lemma_single_bit_flip_detected(hb, i, j);
}

/// Parsing is idempotent: the decoded header, its options range and its
/// validity are functions of the input bytes alone, so parsing the same
/// immutable bytes twice yields views with identical field values.
pub proof fn lemma_ipv4_parse_idempotent(b1: Seq<u8>, b2: Seq<u8>)
    requires
        b1 == b2,
    ensures
        spec_ipv4_required(b1) == spec_ipv4_required(b2),
        spec_options_len(b1) == spec_options_len(b2),
        spec_ipv4_valid(b1) == spec_ipv4_valid(b2),
{
}

} // verus!
