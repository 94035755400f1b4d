//! Protocol enumerations shared by the internet layer: IP version and
//! protocol numbers, Differentiated Services codepoints and Explicit
//! Congestion Notification codes.
//!
//! Each enumeration classifies a raw wire code without losing the numeric
//! value on the unknown path, and reading the code back is lossless.

use vstd::prelude::*;

use crate::header::error::ValueToLarge;
use crate::header::primitive::U8;

verus! {

/// An IP version number. Supported versions are IPv4 and IPv6.
#[derive(Debug, Hash, PartialEq, Eq, PartialOrd, Ord, Copy, Clone, Structural)]
pub enum IpVersion {
    Ipv4,
    Ipv6,
    Unknown(u8),
}

impl IpVersion {
    /// The classification of a raw version number.
    pub open spec fn spec_new(value: u8) -> IpVersion {
        if value == 4 {
            IpVersion::Ipv4
        } else if value == 6 {
            IpVersion::Ipv6
        } else {
            IpVersion::Unknown(value)
        }
    }

    /// The raw number of a classification.
    pub open spec fn spec_get(self) -> u8 {
        match self {
            IpVersion::Ipv4 => 4,
            IpVersion::Ipv6 => 6,
            IpVersion::Unknown(value) => value,
        }
    }

    /// Classifies a raw IP version number.
    #[verifier::when_used_as_spec(spec_new)]
    #[inline]
    pub fn new(value: u8) -> (r: Self)
        ensures
            r == IpVersion::spec_new(value),
    {
        match value {
            4 => IpVersion::Ipv4,
            6 => IpVersion::Ipv6,
            _ => IpVersion::Unknown(value),
        }
    }

    /// The raw version number this classification stands for.
    #[inline]
    pub fn get(&self) -> (r: u8)
        ensures
            r == self.spec_get(),
    {
        match *self {
            IpVersion::Ipv4 => 4,
            IpVersion::Ipv6 => 6,
            IpVersion::Unknown(value) => value,
        }
    }
}

/// Classifying a raw version number and reading it back is lossless.
pub proof fn lemma_ip_version_round_trip(value: u8)
    ensures
        IpVersion::spec_new(value).spec_get() == value,
{
}

/// An IP protocol number: the protocol encapsulated within an IP packet.
#[derive(Debug, Hash, PartialEq, Eq, PartialOrd, Ord, Copy, Clone, Structural)]
pub enum IpProtocol {
    HopByHop,
    ICMP,
    IGMP,
    TCP,
    UDP,
    IPv6Route,
    IPv6Frag,
    ICMPv6,
    IPv6NoNxt,
    IPv6Opts,
    Unknown(u8),
}

impl IpProtocol {
    /// The classification of a raw protocol number.
    pub open spec fn spec_new(value: u8) -> IpProtocol {
        if value == 0x00 {
            IpProtocol::HopByHop
        } else if value == 0x01 {
            IpProtocol::ICMP
        } else if value == 0x02 {
            IpProtocol::IGMP
        } else if value == 0x06 {
            IpProtocol::TCP
        } else if value == 0x11 {
            IpProtocol::UDP
        } else if value == 0x2b {
            IpProtocol::IPv6Route
        } else if value == 0x2c {
            IpProtocol::IPv6Frag
        } else if value == 0x3a {
            IpProtocol::ICMPv6
        } else if value == 0x3b {
            IpProtocol::IPv6NoNxt
        } else if value == 0x3c {
            IpProtocol::IPv6Opts
        } else {
            IpProtocol::Unknown(value)
        }
    }

    /// The raw number of a classification.
    pub open spec fn spec_get(self) -> u8 {
        match self {
            IpProtocol::HopByHop => 0x00,
            IpProtocol::ICMP => 0x01,
            IpProtocol::IGMP => 0x02,
            IpProtocol::TCP => 0x06,
            IpProtocol::UDP => 0x11,
            IpProtocol::IPv6Route => 0x2b,
            IpProtocol::IPv6Frag => 0x2c,
            IpProtocol::ICMPv6 => 0x3a,
            IpProtocol::IPv6NoNxt => 0x3b,
            IpProtocol::IPv6Opts => 0x3c,
            IpProtocol::Unknown(value) => value,
        }
    }

    /// A recognized (non-`Unknown`) protocol number.
    pub open spec fn spec_is_known(self) -> bool {
        !(self is Unknown)
    }

    /// Classifies a raw IP protocol number.
    #[verifier::when_used_as_spec(spec_new)]
    #[inline]
    pub fn new(value: u8) -> (r: Self)
        ensures
            r == IpProtocol::spec_new(value),
    {
        match value {
            0x00 => IpProtocol::HopByHop,
            0x01 => IpProtocol::ICMP,
            0x02 => IpProtocol::IGMP,
            0x06 => IpProtocol::TCP,
            0x11 => IpProtocol::UDP,
            0x2b => IpProtocol::IPv6Route,
            0x2c => IpProtocol::IPv6Frag,
            0x3a => IpProtocol::ICMPv6,
            0x3b => IpProtocol::IPv6NoNxt,
            0x3c => IpProtocol::IPv6Opts,
            _ => IpProtocol::Unknown(value),
        }
    }

    /// The raw protocol number this classification stands for.
    #[inline]
    pub fn get(&self) -> (r: u8)
        ensures
            r == self.spec_get(),
    {
        match *self {
            IpProtocol::HopByHop => 0x00,
            IpProtocol::ICMP => 0x01,
            IpProtocol::IGMP => 0x02,
            IpProtocol::TCP => 0x06,
            IpProtocol::UDP => 0x11,
            IpProtocol::IPv6Route => 0x2b,
            IpProtocol::IPv6Frag => 0x2c,
            IpProtocol::ICMPv6 => 0x3a,
            IpProtocol::IPv6NoNxt => 0x3b,
            IpProtocol::IPv6Opts => 0x3c,
            IpProtocol::Unknown(value) => value,
        }
    }
}

/// Classifying a raw protocol number and reading it back is lossless.
pub proof fn lemma_ip_protocol_round_trip(value: u8)
    ensures
        IpProtocol::spec_new(value).spec_get() == value,
{
}

/// The network-endian byte of an IP protocol field as it stands in a
/// packet.
#[derive(Debug, Hash, PartialEq, Eq, PartialOrd, Ord, Clone, Copy)]
pub struct ProtocolRepr(pub U8);

impl ProtocolRepr {
    /// The classification of the stored protocol number.
    pub open spec fn spec_get(self) -> IpProtocol {
        IpProtocol::spec_new(self.0.0[0])
    }

    /// Get the underlying [`IpProtocol`].
    #[inline]
    pub(crate) fn get(&self) -> (r: IpProtocol)
        ensures
            r == self.spec_get(),
    {
        IpProtocol::new(self.0.get())
    }
}

/// A Differentiated Services codepoint (DSCP): selects the per-hop
/// behavior a packet experiences at each node. Only six bits wide.
#[derive(Debug, Hash, PartialEq, Eq, PartialOrd, Ord, Copy, Clone)]
pub struct Dscp(pub u8);

impl Dscp {
    /// A codepoint fits in six bits.
    pub open spec fn spec_valid(self) -> bool {
        self.0 <= 0x3F
    }

    /// Validates a raw codepoint: values above six bits are rejected.
    #[inline]
    pub fn new(value: u8) -> (r: Result<Self, ValueToLarge>)
        ensures
            r is Ok <==> value <= 0x3F,
            r is Ok ==> r.unwrap() == (Dscp(value)),
    {
        if value <= 0x3F {
            Ok(Dscp(value))
        } else {
            Err(ValueToLarge)
        }
    }

    /// The raw codepoint.
    #[inline]
    pub fn get(&self) -> (r: u8)
        ensures
            r == self.0,
    {
        self.0
    }
}

/// A standardized listing of Differentiated Services codepoints.
#[derive(Debug, Hash, PartialEq, Eq, PartialOrd, Ord, Copy, Clone, Structural)]
pub enum StdDscp {
    CS0,
    CS1,
    CS2,
    CS3,
    CS4,
    CS5,
    CS6,
    CS7,
    AF11,
    AF12,
    AF13,
    AF21,
    AF22,
    AF23,
    AF31,
    AF32,
    AF33,
    AF41,
    AF42,
    AF43,
    EF,
    VoiceAdmit,
    LE,
    Unknown(u8),
}

impl StdDscp {
    /// The classification of a raw codepoint.
    pub open spec fn spec_new(value: u8) -> StdDscp {
        if value == 0b000000 {
            StdDscp::CS0
        } else if value == 0b001000 {
            StdDscp::CS1
        } else if value == 0b010000 {
            StdDscp::CS2
        } else if value == 0b011000 {
            StdDscp::CS3
        } else if value == 0b100000 {
            StdDscp::CS4
        } else if value == 0b101000 {
            StdDscp::CS5
        } else if value == 0b110000 {
            StdDscp::CS6
        } else if value == 0b111000 {
            StdDscp::CS7
        } else if value == 0b001010 {
            StdDscp::AF11
        } else if value == 0b001100 {
            StdDscp::AF12
        } else if value == 0b001110 {
            StdDscp::AF13
        } else if value == 0b010010 {
            StdDscp::AF21
        } else if value == 0b010100 {
            StdDscp::AF22
        } else if value == 0b010110 {
            StdDscp::AF23
        } else if value == 0b011010 {
            StdDscp::AF31
        } else if value == 0b011100 {
            StdDscp::AF32
        } else if value == 0b011110 {
            StdDscp::AF33
        } else if value == 0b100010 {
            StdDscp::AF41
        } else if value == 0b100100 {
            StdDscp::AF42
        } else if value == 0b100110 {
            StdDscp::AF43
        } else if value == 0b101110 {
            StdDscp::EF
        } else if value == 0b101100 {
            StdDscp::VoiceAdmit
        } else if value == 0b000001 {
            StdDscp::LE
        } else {
            StdDscp::Unknown(value)
        }
    }

    /// The raw codepoint of a classification.
    pub open spec fn spec_get(self) -> u8 {
        match self {
            StdDscp::CS0 => 0b000000,
            StdDscp::CS1 => 0b001000,
            StdDscp::CS2 => 0b010000,
            StdDscp::CS3 => 0b011000,
            StdDscp::CS4 => 0b100000,
            StdDscp::CS5 => 0b101000,
            StdDscp::CS6 => 0b110000,
            StdDscp::CS7 => 0b111000,
            StdDscp::AF11 => 0b001010,
            StdDscp::AF12 => 0b001100,
            StdDscp::AF13 => 0b001110,
            StdDscp::AF21 => 0b010010,
            StdDscp::AF22 => 0b010100,
            StdDscp::AF23 => 0b010110,
            StdDscp::AF31 => 0b011010,
            StdDscp::AF32 => 0b011100,
            StdDscp::AF33 => 0b011110,
            StdDscp::AF41 => 0b100010,
            StdDscp::AF42 => 0b100100,
            StdDscp::AF43 => 0b100110,
            StdDscp::EF => 0b101110,
            StdDscp::VoiceAdmit => 0b101100,
            StdDscp::LE => 0b000001,
            StdDscp::Unknown(value) => value,
        }
    }

    /// Classifies a raw codepoint.
    #[verifier::when_used_as_spec(spec_new)]
    #[inline]
    pub fn new(value: u8) -> (r: Self)
        ensures
            r == StdDscp::spec_new(value),
    {
        match value {
            0b000000 => StdDscp::CS0,
            0b001000 => StdDscp::CS1,
            0b010000 => StdDscp::CS2,
            0b011000 => StdDscp::CS3,
            0b100000 => StdDscp::CS4,
            0b101000 => StdDscp::CS5,
            0b110000 => StdDscp::CS6,
            0b111000 => StdDscp::CS7,
            0b001010 => StdDscp::AF11,
            0b001100 => StdDscp::AF12,
            0b001110 => StdDscp::AF13,
            0b010010 => StdDscp::AF21,
            0b010100 => StdDscp::AF22,
            0b010110 => StdDscp::AF23,
            0b011010 => StdDscp::AF31,
            0b011100 => StdDscp::AF32,
            0b011110 => StdDscp::AF33,
            0b100010 => StdDscp::AF41,
            0b100100 => StdDscp::AF42,
            0b100110 => StdDscp::AF43,
            0b101110 => StdDscp::EF,
            0b101100 => StdDscp::VoiceAdmit,
            0b000001 => StdDscp::LE,
            _ => StdDscp::Unknown(value),
        }
    }

    /// The raw codepoint this classification stands for.
    #[inline]
    pub fn get(&self) -> (r: u8)
        ensures
            r == self.spec_get(),
    {
        match *self {
            StdDscp::CS0 => 0b000000,
            StdDscp::CS1 => 0b001000,
            StdDscp::CS2 => 0b010000,
            StdDscp::CS3 => 0b011000,
            StdDscp::CS4 => 0b100000,
            StdDscp::CS5 => 0b101000,
            StdDscp::CS6 => 0b110000,
            StdDscp::CS7 => 0b111000,
            StdDscp::AF11 => 0b001010,
            StdDscp::AF12 => 0b001100,
            StdDscp::AF13 => 0b001110,
            StdDscp::AF21 => 0b010010,
            StdDscp::AF22 => 0b010100,
            StdDscp::AF23 => 0b010110,
            StdDscp::AF31 => 0b011010,
            StdDscp::AF32 => 0b011100,
            StdDscp::AF33 => 0b011110,
            StdDscp::AF41 => 0b100010,
            StdDscp::AF42 => 0b100100,
            StdDscp::AF43 => 0b100110,
            StdDscp::EF => 0b101110,
            StdDscp::VoiceAdmit => 0b101100,
            StdDscp::LE => 0b000001,
            StdDscp::Unknown(value) => value,
        }
    }

    /// Classifies the codepoint carried by a [`Dscp`].
    #[inline]
    pub fn from_dscp(value: Dscp) -> (r: Self)
        ensures
            r == StdDscp::spec_new(value.0),
    {
        StdDscp::new(value.0)
    }
}

/// Classifying a raw codepoint and reading it back is lossless.
pub proof fn lemma_std_dscp_round_trip(value: u8)
    ensures
        StdDscp::spec_new(value).spec_get() == value,
{
}

/// An Explicit Congestion Notification (ECN) code: an optional feature
/// which, combined with transport-layer support, relieves congestion
/// without dropping packets. Only two bits wide.
#[derive(Debug, Hash, PartialEq, Eq, PartialOrd, Ord, Copy, Clone, Structural)]
pub enum Ecn {
    /// Non ECN-Capable Transport
    NonECT,
    /// ECN Capable Transport 0
    ECT0,
    /// ECN Capable Transport 1
    ECT1,
    /// Congestion Encountered
    CE,
    Unknown(u8),
}

impl Ecn {
    /// The classification of a raw ECN code.
    pub open spec fn spec_new(value: u8) -> Ecn {
        if value == 0b00 {
            Ecn::NonECT
        } else if value == 0b10 {
            Ecn::ECT0
        } else if value == 0b01 {
            Ecn::ECT1
        } else if value == 0b11 {
            Ecn::CE
        } else {
            Ecn::Unknown(value)
        }
    }

    /// The raw code of a classification.
    pub open spec fn spec_get(self) -> u8 {
        match self {
            Ecn::NonECT => 0b00,
            Ecn::ECT0 => 0b10,
            Ecn::ECT1 => 0b01,
            Ecn::CE => 0b11,
            Ecn::Unknown(value) => value,
        }
    }

    /// Classifies a raw ECN code.
    #[verifier::when_used_as_spec(spec_new)]
    #[inline]
    pub fn new(value: u8) -> (r: Self)
        ensures
            r == Ecn::spec_new(value),
    {
        match value {
            0b00 => Ecn::NonECT,
            0b10 => Ecn::ECT0,
            0b01 => Ecn::ECT1,
            0b11 => Ecn::CE,
            _ => Ecn::Unknown(value),
        }
    }

    /// The raw ECN code this classification stands for.
    #[inline]
    pub fn get(&self) -> (r: u8)
        ensures
            r == self.spec_get(),
    {
        match *self {
            Ecn::NonECT => 0b00,
            Ecn::ECT0 => 0b10,
            Ecn::ECT1 => 0b01,
            Ecn::CE => 0b11,
            Ecn::Unknown(value) => value,
        }
    }
}

/// Classifying a raw ECN code and reading it back is lossless.
pub proof fn lemma_ecn_round_trip(value: u8)
    ensures
        Ecn::spec_new(value).spec_get() == value,
{
}

} // verus!
