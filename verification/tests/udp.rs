use tygress::error::Error;
use tygress::header::transport::Udp;
use tygress::header::HeaderTruncated;

#[test]
fn udp_short_header() {
    let bytes = [0; 7];
    assert_eq!(Udp::from_bytes(&bytes).unwrap_err(), HeaderTruncated);
}

#[test]
fn udp_fields_and_payload() {
    // source port 53, destination port 33000, length 12, checksum unused
    let bytes = [0x00, 0x35, 0x80, 0xE8, 0x00, 0x0C, 0x00, 0x00, 0x01, 0x02, 0x03, 0x04];
    let (header, payload) = Udp::parse(&bytes).unwrap();
    assert_eq!(header.source_port(), 53);
    assert_eq!(header.destination_port(), 33000);
    assert_eq!(header.len(), 12);
    assert_eq!(header._checksum(), 0);
    assert_eq!(payload, &[0x01, 0x02, 0x03, 0x04]);
}

#[test]
fn udp_parse_malformed_length() {
    // the length field declares less than the header's own eight bytes
    let bytes = [0x00, 0x35, 0x80, 0xE8, 0x00, 0x07, 0x00, 0x00];
    assert_eq!(Udp::parse(&bytes).unwrap_err(), Error::Malformed);
}

#[test]
fn udp_parse_truncated() {
    let bytes = [0x00, 0x35, 0x80, 0xE8, 0x00, 0x0C, 0x00];
    assert_eq!(Udp::parse(&bytes).unwrap_err(), Error::Truncated);
}

#[test]
fn udp_parse_idempotent() {
    let bytes = [0x00, 0x35, 0x80, 0xE8, 0x00, 0x08, 0xAB, 0xCD];
    let (first, _) = Udp::parse(&bytes).unwrap();
    let (second, _) = Udp::parse(&bytes).unwrap();
    assert_eq!(first, second);
}
