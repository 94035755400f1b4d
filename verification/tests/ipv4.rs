use tygress::error::Error;
use tygress::header::internet::{Dscp, Ecn, IpProtocol, IpVersion, Ipv4, Ipv4Addr, Ipv4Flags};
use tygress::header::HeaderTruncated;

// A 20-byte IPv4 header with a valid checksum: version 4, header length
// 20, UDP, 192.168.0.1 -> 192.168.0.199, total length 0x73.
const EXAMPLE: [u8; 20] = [
    0x45, 0x00, 0x00, 0x73, 0x00, 0x00, 0x40, 0x00, 0x40, 0x11, 0xb8, 0x61, 0xc0, 0xa8, 0x00,
    0x01, 0xc0, 0xa8, 0x00, 0xc7,
];

#[test]
fn ipv4_short_header() {
    let bytes = [0; 19];
    assert_eq!(Ipv4::from_bytes(&bytes).unwrap_err(), HeaderTruncated);
}

#[test]
fn ipv4_example_parses() {
    let (header, payload) = Ipv4::parse(&EXAMPLE).unwrap();
    assert_eq!(header.version(), IpVersion::Ipv4);
    assert_eq!(header.header_len(), 20);
    assert_eq!(header.options_len(), 0);
    assert_eq!(header.protocol(), IpProtocol::UDP);
    assert_eq!(header.protocol().get(), 0x11);
    assert_eq!(header.src(), Ipv4Addr::new([192, 168, 0, 1]));
    assert_eq!(header.dst(), Ipv4Addr::new([192, 168, 0, 199]));
    assert_eq!(header.total_len(), 0x73);
    assert_eq!(header.total_len(), 115);
    assert_eq!(header.id(), 0);
    assert_eq!(header.flags(), Ipv4Flags::DF);
    assert_eq!(header.offset(), 0);
    assert_eq!(header.ttl(), 0x40);
    assert_eq!(header.cks(), 0xb861);
    assert_eq!(header.dscp(), Dscp(0));
    assert_eq!(header.ecn(), Ecn::NonECT);
    assert_eq!(header.options().next(), None);
    assert!(payload.is_empty());
}

#[test]
fn ipv4_parse_idempotent() {
    let (first, first_payload) = Ipv4::parse(&EXAMPLE).unwrap();
    let (second, second_payload) = Ipv4::parse(&EXAMPLE).unwrap();
    assert_eq!(first.version(), second.version());
    assert_eq!(first.header_len(), second.header_len());
    assert_eq!(first.protocol(), second.protocol());
    assert_eq!(first.src(), second.src());
    assert_eq!(first.dst(), second.dst());
    assert_eq!(first.total_len(), second.total_len());
    assert_eq!(first, second);
    assert_eq!(first_payload, second_payload);
}

#[test]
fn ipv4_parse_truncated() {
    assert_eq!(Ipv4::parse(&EXAMPLE[..19]).unwrap_err(), Error::Truncated);
    // header length nibble declares 24 bytes but only 20 are present
    let mut declared_options = EXAMPLE;
    declared_options[0] = 0x46;
    assert_eq!(Ipv4::parse(&declared_options).unwrap_err(), Error::Truncated);
}

#[test]
fn ipv4_parse_unsupported_version() {
    let mut wrong_version = EXAMPLE;
    wrong_version[0] = 0x65;
    assert_eq!(Ipv4::parse(&wrong_version).unwrap_err(), Error::Unsupported);
}

#[test]
fn ipv4_parse_malformed_header_len() {
    // version nibble right, but the header length nibble declares only
    // 4 * 4 = 16 bytes, below the required twenty
    let mut short_ihl = EXAMPLE;
    short_ihl[0] = 0x44;
    assert_eq!(Ipv4::parse(&short_ihl).unwrap_err(), Error::Malformed);
}

#[test]
fn ipv4_parse_malformed_reserved_flag() {
    let mut reserved_set = EXAMPLE;
    reserved_set[6] = 0xC0; // flags 0b110: reserved bit set
    assert_eq!(Ipv4::parse(&reserved_set).unwrap_err(), Error::Malformed);
}

#[test]
fn ipv4_parse_unsupported_protocol() {
    let mut unknown_protocol = EXAMPLE;
    unknown_protocol[9] = 0x63;
    assert_eq!(Ipv4::parse(&unknown_protocol).unwrap_err(), Error::Unsupported);
}

#[test]
fn ipv4_parse_bad_checksum() {
    let mut corrupted = EXAMPLE;
    corrupted[19] ^= 0x01;
    assert_eq!(Ipv4::parse(&corrupted).unwrap_err(), Error::Checksum);
}

#[test]
fn ipv4_options_split() {
    // header length 24: twenty required bytes plus four options bytes,
    // checksum adjusted for the changed first word (0x4500 -> 0x4600)
    let bytes: Vec<u8> = vec![
        0x46, 0x00, 0x00, 0x73, 0x00, 0x00, 0x40, 0x00, 0x40, 0x11, 0xb7, 0x61, 0xc0, 0xa8, 0x00,
        0x01, 0xc0, 0xa8, 0x00, 0xc7, 0x00, 0x00, 0x00, 0x00, 0xAB,
    ];
    let (header, payload) = Ipv4::parse(&bytes).unwrap();
    assert_eq!(header.header_len(), 24);
    assert_eq!(header.options_len(), 4);
    assert_eq!(payload, &[0xAB]);
}

#[test]
fn ipv4_addr_blocks() {
    assert!(Ipv4Addr::new([0, 0, 0, 0]).is_unspecified());
    assert!(Ipv4Addr::unspecified().is_unspecified());
    assert!(Ipv4Addr::localhost().is_loopback());
    assert!(Ipv4Addr::new([127, 4, 5, 6]).is_loopback());
    assert!(Ipv4Addr::new([10, 1, 2, 3]).is_private());
    assert!(Ipv4Addr::new([172, 16, 0, 1]).is_private());
    assert!(Ipv4Addr::new([172, 31, 0, 1]).is_private());
    assert!(!Ipv4Addr::new([172, 32, 0, 1]).is_private());
    assert!(Ipv4Addr::new([192, 168, 0, 1]).is_private());
    assert!(Ipv4Addr::new([169, 254, 9, 9]).is_link_local());
    assert!(Ipv4Addr::new([100, 64, 0, 1]).is_shared());
    assert!(!Ipv4Addr::new([100, 128, 0, 1]).is_shared());
    assert!(Ipv4Addr::new([198, 18, 0, 1]).is_benchmarking());
    assert!(Ipv4Addr::new([198, 19, 0, 1]).is_benchmarking());
    assert!(Ipv4Addr::new([240, 0, 0, 1]).is_reserved());
    assert!(Ipv4Addr::broadcast().is_broadcast());
    assert!(!Ipv4Addr::new([255, 255, 255, 255]).is_reserved());
    assert!(Ipv4Addr::new([224, 0, 0, 1]).is_multicast());
    assert!(Ipv4Addr::new([192, 0, 2, 7]).is_documentation());
    assert!(Ipv4Addr::new([198, 51, 100, 7]).is_documentation());
    assert!(Ipv4Addr::new([203, 0, 113, 7]).is_documentation());
    assert_eq!(Ipv4Addr::new([1, 2, 3, 4]).as_bytes(), &[1, 2, 3, 4]);
}

#[test]
fn ipv4_addr_global() {
    // the two anycast exceptions inside 192.0.0.0/24 are global
    assert!(Ipv4Addr::new([192, 0, 0, 9]).is_global());
    assert!(Ipv4Addr::new([192, 0, 0, 10]).is_global());
    assert!(!Ipv4Addr::new([192, 0, 0, 8]).is_global());
    assert!(Ipv4Addr::new([8, 8, 8, 8]).is_global());
    assert!(!Ipv4Addr::new([10, 0, 0, 1]).is_global());
    assert!(!Ipv4Addr::new([127, 0, 0, 1]).is_global());
    assert!(!Ipv4Addr::new([0, 1, 2, 3]).is_global());
    assert!(!Ipv4Addr::new([255, 255, 255, 255]).is_global());
}

#[test]
fn ipv4_flags_round_trip() {
    for raw in 0u8..8 {
        assert_eq!(Ipv4Flags::new(raw).get(), raw);
    }
    assert_eq!(Ipv4Flags::new(0), Ipv4Flags::LF);
    assert_eq!(Ipv4Flags::new(1), Ipv4Flags::MF);
    assert_eq!(Ipv4Flags::new(2), Ipv4Flags::DF);
    assert_eq!(Ipv4Flags::new(3), Ipv4Flags::Unknown(3));
}
