use tygress::error::Error;
use tygress::header::internet::{Arp, Hardware, Operation};
use tygress::header::link::{EtherAddr, EtherType};
use tygress::header::HeaderTruncated;
use tygress::header::internet::Ipv4Addr;

// A 28-byte ARP request: Ethernet hardware, IPv4 protocol, lengths 6 and
// 4, resolving 192.168.0.199 for 192.168.0.1.
const REQUEST: [u8; 28] = [
    0x00, 0x01, 0x08, 0x00, 0x06, 0x04, 0x00, 0x01, 0x02, 0x04, 0x06, 0x08, 0x0A, 0x0C, 0xc0,
    0xa8, 0x00, 0x01, 0x00, 0x00, 0x00, 0x00, 0x00, 0x00, 0xc0, 0xa8, 0x00, 0xc7,
];

#[test]
fn arp_short_header() {
    let bytes = [0; 27];
    assert_eq!(Arp::from_bytes(&bytes).unwrap_err(), HeaderTruncated);
}

#[test]
fn arp_one_byte_short_of_request() {
    // one byte short of the 28-byte ARP header
    assert_eq!(Arp::from_bytes(&REQUEST[..27]).unwrap_err(), HeaderTruncated);
    assert_eq!(Arp::parse(&REQUEST[..27]).unwrap_err(), Error::Truncated);
}

#[test]
fn arp_parse_request() {
    let (header, payload) = Arp::parse(&REQUEST).unwrap();
    assert_eq!(header.hardware(), Hardware::Ethernet);
    assert_eq!(header.protocol(), EtherType::Ipv4);
    assert_eq!(header.hw_addr_len(), 6);
    assert_eq!(header.proto_addr_len(), 4);
    assert_eq!(header.operation(), Operation::Request);
    assert_eq!(header.src_hw_addr(), EtherAddr::new([0x02, 0x04, 0x06, 0x08, 0x0A, 0x0C]));
    assert_eq!(header.src_proto_addr(), Ipv4Addr::new([192, 168, 0, 1]));
    assert_eq!(header.dest_hw_addr(), EtherAddr::new([0, 0, 0, 0, 0, 0]));
    assert_eq!(header.dest_proto_addr(), Ipv4Addr::new([192, 168, 0, 199]));
    assert!(payload.is_empty());
}

#[test]
fn arp_parse_unsupported_fields() {
    // a hardware type other than Ethernet
    let mut wrong_hardware = REQUEST;
    wrong_hardware[1] = 0x02;
    assert_eq!(Arp::parse(&wrong_hardware).unwrap_err(), Error::Unsupported);
    // a protocol type other than IPv4
    let mut wrong_protocol = REQUEST;
    wrong_protocol[2] = 0x86;
    wrong_protocol[3] = 0xDD;
    assert_eq!(Arp::parse(&wrong_protocol).unwrap_err(), Error::Unsupported);
    // a hardware address length other than six
    let mut wrong_hlen = REQUEST;
    wrong_hlen[4] = 8;
    assert_eq!(Arp::parse(&wrong_hlen).unwrap_err(), Error::Unsupported);
    // a protocol address length other than four
    let mut wrong_plen = REQUEST;
    wrong_plen[5] = 16;
    assert_eq!(Arp::parse(&wrong_plen).unwrap_err(), Error::Unsupported);
}

#[test]
fn arp_parse_idempotent() {
    let (first, _) = Arp::parse(&REQUEST).unwrap();
    let (second, _) = Arp::parse(&REQUEST).unwrap();
    assert_eq!(first, second);
}

#[test]
fn arp_enums_round_trip() {
    for code in [0u16, 1, 2, 3, 0xFFFF] {
        assert_eq!(Hardware::new(code).get(), code);
        assert_eq!(Operation::new(code).get(), code);
    }
    assert_eq!(Hardware::new(1), Hardware::Ethernet);
    assert_eq!(Operation::new(1), Operation::Request);
    assert_eq!(Operation::new(2), Operation::Reply);
}
