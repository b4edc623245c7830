use intqual::network::icmp::packet::{
    IcmpEchoReply, IcmpEchoRequest, IcmpResponse, ERR_HEADER_TOO_SHORT, ERR_INNER_IHL_TOO_SHORT,
    ERR_INNER_NOT_ICMP, ERR_INNER_NOT_IPV4, ERR_INNER_TOO_SHORT, ERR_NOT_ECHO_REPLY, ERR_TOO_SHORT,
};

/// One's-complement sum of a buffer, folded to 16 bits (receiver side of RFC 1071).
fn folded_sum(buf: &[u8]) -> u32 {
    let mut sum: u64 = 0;
    let mut i = 0;
    while i + 1 < buf.len() {
        sum += ((buf[i] as u64) << 8) | buf[i + 1] as u64;
        i += 2;
    }
    if buf.len() % 2 == 1 {
        sum += (buf[buf.len() - 1] as u64) << 8;
    }
    while sum >> 16 != 0 {
        sum = (sum & 0xffff) + (sum >> 16);
    }
    sum as u32
}

fn ipv4_header(protocol: u8) -> Vec<u8> {
    let mut h = vec![0u8; 20];
    h[0] = 0x45;
    h[8] = 64;
    h[9] = protocol;
    h
}

#[test]
fn new_keeps_fields() {
    let r = IcmpEchoRequest::new(0x1234, 7, vec![1, 2, 3]);
    assert_eq!(r.identifier, 0x1234);
    assert_eq!(r.sequence_number, 7);
    assert_eq!(r.payload, vec![1, 2, 3]);
}

#[test]
fn encode_without_checksum_layout() {
    let r = IcmpEchoRequest::new(0x1234, 0x0001, vec![0xAA]);
    assert_eq!(r.encode_without_checksum(), vec![8, 0, 0, 0, 0x12, 0x34, 0x00, 0x01, 0xAA]);
}

#[test]
fn encode_without_checksum_empty_payload() {
    let r = IcmpEchoRequest::new(0xBEEF, 0x0203, vec![]);
    assert_eq!(r.encode_without_checksum(), vec![8, 0, 0, 0, 0xBE, 0xEF, 0x02, 0x03]);
}

#[test]
fn encode_checksum_even_length() {
    // 0x0800 + 0x1234 + 0x0001 = 0x1A35, complement 0xE5CA
    let r = IcmpEchoRequest::new(0x1234, 0x0001, vec![]);
    assert_eq!(r.encode(), vec![8, 0, 0xE5, 0xCA, 0x12, 0x34, 0x00, 0x01]);
}

#[test]
fn encode_checksum_odd_length_pads_last_byte() {
    // 0x0800 + 0x1234 + 0x0001 + 0x0100 = 0x1B35, complement 0xE4CA
    let r = IcmpEchoRequest::new(0x1234, 0x0001, vec![0x01]);
    assert_eq!(r.encode(), vec![8, 0, 0xE4, 0xCA, 0x12, 0x34, 0x00, 0x01, 0x01]);
}

#[test]
fn encode_checksum_folds_carries() {
    // 0x0800 + 0xFFFF + 0xFFFF = 0x207FE -> 0x07FE + 0x2 = 0x0800, complement 0xF7FF
    let r = IcmpEchoRequest::new(0xFFFF, 0xFFFF, vec![]);
    assert_eq!(r.encode(), vec![8, 0, 0xF7, 0xFF, 0xFF, 0xFF, 0xFF, 0xFF]);
}

#[test]
fn encoded_packet_checks_out() {
    for (id, seq, payload) in [
        (0u16, 0u16, vec![]),
        (0x1234, 0x5678, vec![1, 2, 3, 4, 5]),
        (0xFFFF, 0xFFFF, vec![0xFF; 33]),
        (42, 9, b"intqual".to_vec()),
    ] {
        let bytes = IcmpEchoRequest::new(id, seq, payload).encode();
        assert_eq!(folded_sum(&bytes), 0xFFFF);
    }
}

#[test]
fn echo_reply_decodes_fields() {
    let buf = [0u8, 0, 0xAB, 0xCD, 0x12, 0x34, 0x00, 0x2A, 9, 9];
    let r = IcmpEchoReply::decode(&buf).unwrap();
    assert_eq!((r.type_, r.code, r.identifier, r.sequence_number), (0, 0, 0x1234, 42));
}

#[test]
fn echo_reply_too_short() {
    assert_eq!(IcmpEchoReply::decode(&[0u8; 7]).unwrap_err(), ERR_HEADER_TOO_SHORT);
    assert_eq!(ERR_HEADER_TOO_SHORT, "Buffer too short to contain a valid ICMP header");
}

#[test]
fn echo_reply_rejects_other_types() {
    let req = IcmpEchoRequest::new(1, 2, vec![]).encode();
    assert_eq!(IcmpEchoReply::decode(&req).unwrap_err(), ERR_NOT_ECHO_REPLY);
    assert_eq!(ERR_NOT_ECHO_REPLY, "Not an ICMP Echo Reply");
}

#[test]
fn reply_roundtrip_of_request_layout() {
    let mut bytes = IcmpEchoRequest::new(0x0102, 0x0304, vec![5, 6]).encode();
    bytes[0] = 0;
    let r = IcmpEchoReply::decode(&bytes).unwrap();
    assert_eq!((r.identifier, r.sequence_number), (0x0102, 0x0304));
}

fn error_message(type_: u8, code: u8, inner_ip: &[u8], inner: &[u8]) -> Vec<u8> {
    let mut m = vec![type_, code, 0, 0, 0, 0, 0, 0];
    m.extend_from_slice(inner_ip);
    m.extend_from_slice(inner);
    m
}

#[test]
fn time_exceeded_quotes_request() {
    let inner = IcmpEchoRequest::new(0xBEEF, 45, vec![]).encode();
    let msg = error_message(11, 0, &ipv4_header(1), &inner);
    match IcmpResponse::decode(&msg).unwrap() {
        IcmpResponse::TimeExceeded(t) => {
            assert_eq!((t.code, t.original_identifier, t.original_sequence), (0, 0xBEEF, 45));
        }
        other => panic!("unexpected {:?}", other),
    }
}

#[test]
fn destination_unreachable_quotes_request() {
    let inner = IcmpEchoRequest::new(7, 8, vec![]).encode_without_checksum();
    let msg = error_message(3, 3, &ipv4_header(1), &inner);
    match IcmpResponse::decode(&msg).unwrap() {
        IcmpResponse::DestinationUnreachable(d) => {
            assert_eq!((d.code, d.original_identifier, d.original_sequence), (3, 7, 8));
        }
        other => panic!("unexpected {:?}", other),
    }
}

#[test]
fn error_body_with_ip_options() {
    let mut h = vec![0u8; 24];
    h[0] = 0x46;
    h[9] = 1;
    let inner = IcmpEchoRequest::new(0x0A0B, 0x0C0D, vec![]).encode();
    let msg = error_message(11, 1, &h, &inner);
    match IcmpResponse::decode(&msg).unwrap() {
        IcmpResponse::TimeExceeded(t) => {
            assert_eq!((t.code, t.original_identifier, t.original_sequence), (1, 0x0A0B, 0x0C0D));
        }
        other => panic!("unexpected {:?}", other),
    }
}

#[test]
fn error_body_errors() {
    let inner = IcmpEchoRequest::new(1, 1, vec![]).encode();
    // shorter than 36 bytes
    let short = error_message(11, 0, &ipv4_header(1), &inner[..7]);
    assert_eq!(IcmpResponse::decode(&short).unwrap_err(), ERR_INNER_TOO_SHORT);
    // inner header not IPv4
    let mut h6 = ipv4_header(1);
    h6[0] = 0x65;
    assert_eq!(IcmpResponse::decode(&error_message(11, 0, &h6, &inner)).unwrap_err(), ERR_INNER_NOT_IPV4);
    // IHL claims 60 bytes
    let mut long = ipv4_header(1);
    long[0] = 0x4F;
    assert_eq!(IcmpResponse::decode(&error_message(3, 0, &long, &inner)).unwrap_err(), ERR_INNER_IHL_TOO_SHORT);
    // quoted protocol is TCP
    assert_eq!(IcmpResponse::decode(&error_message(11, 0, &ipv4_header(6), &inner)).unwrap_err(), ERR_INNER_NOT_ICMP);
}

#[test]
fn error_message_texts() {
    assert_eq!(ERR_TOO_SHORT, "Buffer too short");
    assert_eq!(ERR_INNER_TOO_SHORT, "Buffer too short to contain original IP and ICMP headers");
    assert_eq!(ERR_INNER_NOT_IPV4, "Original IP header is not IPv4");
    assert_eq!(ERR_INNER_IHL_TOO_SHORT, "Buffer too short based on original IHL");
    assert_eq!(ERR_INNER_NOT_ICMP, "Original protocol was not ICMP");
}

#[test]
fn response_decode_short_and_unknown() {
    assert_eq!(IcmpResponse::decode(&[0u8; 3]).unwrap_err(), ERR_TOO_SHORT);
    match IcmpResponse::decode(&[5u8, 1, 0, 0, 0, 0, 0, 0]).unwrap() {
        IcmpResponse::Unknown { type_, code } => assert_eq!((type_, code), (5, 1)),
        other => panic!("unexpected {:?}", other),
    }
    match IcmpResponse::decode(&[0u8, 0, 0, 0, 0, 9, 0, 4]).unwrap() {
        IcmpResponse::EchoReply(r) => assert_eq!((r.identifier, r.sequence_number), (9, 4)),
        other => panic!("unexpected {:?}", other),
    }
}

#[test]
fn strip_ipv4_header_cases() {
    let mut pkt = ipv4_header(1);
    pkt.extend_from_slice(&[0, 0, 1, 2]);
    assert_eq!(IcmpResponse::strip_ipv4_header(&pkt), &[0, 0, 1, 2]);
    // not IPv4: unchanged
    let raw = [0u8, 0, 1, 2];
    assert_eq!(IcmpResponse::strip_ipv4_header(&raw), &raw);
    // empty: unchanged
    let empty: [u8; 0] = [];
    assert_eq!(IcmpResponse::strip_ipv4_header(&empty), &empty);
    // header longer than the buffer: unchanged
    let trunc = [0x4Fu8, 0, 0, 0];
    assert_eq!(IcmpResponse::strip_ipv4_header(&trunc), &trunc);
    // IHL of zero strips nothing
    let zero = [0x40u8, 1, 2];
    assert_eq!(IcmpResponse::strip_ipv4_header(&zero), &zero);
}
