use tygress::header::internet::{Dscp, Ecn, IpProtocol, IpVersion, StdDscp};
use tygress::header::ValueToLarge;
use tygress::netdev::Event;

#[test]
fn ip_version_round_trip() {
    for raw in 0u8..=255 {
        assert_eq!(IpVersion::new(raw).get(), raw);
    }
    assert_eq!(IpVersion::new(4), IpVersion::Ipv4);
    assert_eq!(IpVersion::new(6), IpVersion::Ipv6);
    assert_eq!(IpVersion::new(5), IpVersion::Unknown(5));
}

#[test]
fn ip_protocol_round_trip() {
    for raw in 0u8..=255 {
        assert_eq!(IpProtocol::new(raw).get(), raw);
    }
    assert_eq!(IpProtocol::new(0x06), IpProtocol::TCP);
    assert_eq!(IpProtocol::new(0x11), IpProtocol::UDP);
    assert_eq!(IpProtocol::new(0x01), IpProtocol::ICMP);
    assert_eq!(IpProtocol::new(0x63), IpProtocol::Unknown(0x63));
}

#[test]
fn dscp_validates_six_bits() {
    assert_eq!(Dscp::new(0), Ok(Dscp(0)));
    assert_eq!(Dscp::new(0x3F), Ok(Dscp(0x3F)));
    assert_eq!(Dscp::new(0x40), Err(ValueToLarge));
    assert_eq!(Dscp::new(0xFF), Err(ValueToLarge));
    assert_eq!(Dscp::new(0x2E).unwrap().get(), 0x2E);
}

#[test]
fn std_dscp_round_trip() {
    for raw in 0u8..=255 {
        assert_eq!(StdDscp::new(raw).get(), raw);
    }
    assert_eq!(StdDscp::new(0b101110), StdDscp::EF);
    assert_eq!(StdDscp::new(0b000001), StdDscp::LE);
    assert_eq!(StdDscp::from_dscp(Dscp(0b001010)), StdDscp::AF11);
}

#[test]
fn ecn_round_trip() {
    for raw in 0u8..=255 {
        assert_eq!(Ecn::new(raw).get(), raw);
    }
    assert_eq!(Ecn::new(0b00), Ecn::NonECT);
    assert_eq!(Ecn::new(0b10), Ecn::ECT0);
    assert_eq!(Ecn::new(0b01), Ecn::ECT1);
    assert_eq!(Ecn::new(0b11), Ecn::CE);
}

#[test]
fn event_readiness_flags() {
    assert!(!Event::new().is_readable());
    assert!(!Event::new().is_writable());
    assert!(Event::readable().is_readable());
    assert!(!Event::readable().is_writable());
    assert!(Event::writable().is_writable());
    assert!(!Event::writable().is_readable());
    let both = Event::readable().union(Event::writable());
    assert!(both.is_readable() && both.is_writable());
}
