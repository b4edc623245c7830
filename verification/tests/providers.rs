use intqual::network::icmp::packet::{IcmpEchoRequest, IcmpResponse};
use intqual::network::icmp::provider::response_matches;
use intqual::network::icmp::unix::UnixDgramIcmp;
use intqual::network::icmp::windows::RawIcmpProvider;

fn ipv4_header(protocol: u8) -> Vec<u8> {
    let mut h = vec![0u8; 20];
    h[0] = 0x45;
    h[9] = protocol;
    h
}

fn reply(id: u16, seq: u16) -> Vec<u8> {
    let mut b = IcmpEchoRequest::new(id, seq, vec![]).encode();
    b[0] = 0;
    b
}

fn time_exceeded(id: u16, seq: u16) -> Vec<u8> {
    let mut m = vec![11u8, 0, 0, 0, 0, 0, 0, 0];
    m.extend_from_slice(&ipv4_header(1));
    m.extend_from_slice(&IcmpEchoRequest::new(id, seq, vec![]).encode());
    m
}

#[test]
fn dgram_request_has_no_checksum() {
    let p = UnixDgramIcmp::new(0x0102);
    assert_eq!(p.echo_request(3), vec![8, 0, 0, 0, 1, 2, 0, 3]);
}

#[test]
fn raw_request_has_checksum() {
    let p = RawIcmpProvider::new(0x1234);
    assert_eq!(p.echo_request(1), vec![8, 0, 0xE5, 0xCA, 0x12, 0x34, 0, 1]);
}

#[test]
fn dgram_accepts_reply_by_sequence_only() {
    let p = UnixDgramIcmp::new(1);
    assert!(p.accepts_echo_reply(&reply(999, 5), 5));
    assert!(!p.accepts_echo_reply(&reply(1, 6), 5));
    assert!(!p.accepts_echo_reply(&[0u8; 4], 5));
    assert!(!p.accepts_echo_reply(&time_exceeded(1, 5), 5));
}

#[test]
fn raw_accepts_reply_behind_ip_header() {
    let p = RawIcmpProvider::new(77);
    let mut d = ipv4_header(1);
    d.extend_from_slice(&reply(77, 12));
    assert!(p.accepts_echo_reply(&d, 12));
    assert!(!p.accepts_echo_reply(&d, 13));
    let mut other = ipv4_header(1);
    other.extend_from_slice(&reply(78, 12));
    assert!(!p.accepts_echo_reply(&other, 12));
}

#[test]
fn hop_response_matches_quoted_request() {
    let p = UnixDgramIcmp::new(40);
    match p.hop_response(&time_exceeded(40, 6), 6) {
        Some(IcmpResponse::TimeExceeded(t)) => assert_eq!(t.original_sequence, 6),
        other => panic!("unexpected {:?}", other),
    }
    assert!(p.hop_response(&time_exceeded(41, 6), 6).is_none());
    assert!(p.hop_response(&time_exceeded(40, 7), 6).is_none());
    assert!(p.hop_response(&[5u8, 0, 0, 0, 0, 0, 0, 0], 6).is_none());
}

#[test]
fn raw_hop_response_strips_header() {
    let p = RawIcmpProvider::new(40);
    let mut d = ipv4_header(1);
    d.extend_from_slice(&time_exceeded(40, 9));
    assert!(matches!(p.hop_response(&d, 9), Some(IcmpResponse::TimeExceeded(_))));
    let mut r = ipv4_header(1);
    r.extend_from_slice(&reply(40, 9));
    assert!(matches!(p.hop_response(&r, 9), Some(IcmpResponse::EchoReply(_))));
}

#[test]
fn unknown_response_never_matches() {
    let u = IcmpResponse::Unknown { type_: 5, code: 0 };
    assert!(!response_matches(&u, 0, 0));
    let r = IcmpResponse::decode(&reply(3, 4)).unwrap();
    assert!(response_matches(&r, 4, 3));
    assert!(!response_matches(&r, 4, 2));
}

#[test]
fn own_request_is_never_a_reply() {
    let req = IcmpEchoRequest::new(40, 9, vec![]).encode();
    match IcmpResponse::decode(&req).unwrap() {
        IcmpResponse::Unknown { type_, code } => assert_eq!((type_, code), (8, 0)),
        other => panic!("unexpected {:?}", other),
    }
    let raw = RawIcmpProvider::new(40);
    let mut d = ipv4_header(1);
    d.extend_from_slice(&req);
    assert!(!raw.accepts_echo_reply(&d, 9));
    assert!(raw.hop_response(&d, 9).is_none());
    let dgram = UnixDgramIcmp::new(40);
    assert!(!dgram.accepts_echo_reply(&req, 9));
}
