use vstd::prelude::*;
use super::packet::{
    IcmpEchoReply,
    IcmpEchoRequest,
    IcmpResponse,
    spec_decode_echo_reply,
    spec_decode_response,
    spec_encode,
    spec_strip_ipv4_header,
    word_sum,
    spec_encode_without_checksum,
    echo_layout,
    error_message_layout,
    is_ipv4_header,
    ip_version,
    ip_header_len,
    lemma_echo_reply_roundtrip,
    lemma_error_message_quotes_request,
    lemma_strip_ipv4_header,
    ICMP_TYPE_ECHO_REPLY,
    ICMP_TYPE_ECHO_REQUEST,
    ICMP_TYPE_TIME_EXCEEDED,
    ICMP_TYPE_DEST_UNREACHABLE,
};
use super::provider::{response_matches, spec_response_matches};

verus! {

/// ICMP over a raw socket: received datagrams carry the IPv4 header, and
/// the checksum of what is sent is computed here.
pub struct RawIcmpProvider {
    identifier: u16,
}

impl RawIcmpProvider {
    /// The identifier this provider puts in its echo requests.
    pub closed spec fn spec_identifier(&self) -> u16 {
        self.identifier
    }

    /// The identifier this provider puts in its echo requests.
    pub fn identifier(&self) -> (id: u16)
        ensures
            id == self.spec_identifier(),
    {
        self.identifier
    }

    pub fn new(identifier: u16) -> (p: Self)
        ensures
            p.spec_identifier() == identifier,
    {
        Self { identifier }
    }

    /// The echo request to send for sequence number `seq`: no payload,
    /// checksum computed.
    pub fn echo_request(&self, seq: u16) -> (bytes: Vec<u8>)
        ensures
            bytes@ == spec_encode(self.spec_identifier(), seq, Seq::empty()),
    {
        let packet = IcmpEchoRequest::new(self.identifier, seq, Vec::new());
        proof {
            let b = spec_encode_without_checksum(self.identifier, seq, Seq::<u8>::empty());
            assert(packet.payload@ =~= Seq::<u8>::empty());
            reveal_with_fuel(word_sum, 5);
            assert(b.subrange(2, 8).subrange(2, 6) =~= b.subrange(4, 8));
            assert(b.subrange(4, 8).subrange(2, 4) =~= b.subrange(6, 8));
            assert(b.subrange(6, 8).subrange(2, 2) =~= Seq::<u8>::empty());
            assert(word_sum(b) <= u32::MAX);
        }
        packet.encode()
    }

    /// Whether a received raw datagram (IPv4 header included) is the echo
    /// reply to the ping `(seq, this provider's identifier)`.
    pub fn accepts_echo_reply(&self, datagram: &[u8], seq: u16) -> (res: bool)
        ensures
            res == (spec_decode_echo_reply(spec_strip_ipv4_header(datagram@)) matches Ok(r)
                && r.sequence_number == seq && r.identifier == self.spec_identifier()),
    {
        let message = IcmpResponse::strip_ipv4_header(datagram);
        match IcmpEchoReply::decode(message) {
            Ok(reply) => reply.sequence_number == seq && reply.identifier == self.identifier,
            Err(_) => false,
        }
    }

    /// The response that a received raw datagram gives to the hop probe with
    /// sequence number `seq`, if it decodes and answers that probe.
    pub fn hop_response(&self, datagram: &[u8], seq: u16) -> (res: Option<IcmpResponse>)
        ensures
            res == (match spec_decode_response(spec_strip_ipv4_header(datagram@)) {
                Ok(r) => if spec_response_matches(r, seq, self.spec_identifier()) {
                    Some(r)
                } else {
                    None
                },
                Err(_) => None,
            }),
    {
        let message = IcmpResponse::strip_ipv4_header(datagram);
        match IcmpResponse::decode(message) {
            Ok(response) => {
                if response_matches(&response, seq, self.identifier) {
                    Some(response)
                } else {
                    None
                }
            },
            Err(_) => None,
        }
    }
}

/// Law: behind the IPv4 header that a raw socket delivers, the echo reply
/// to this provider's probe `seq` (any code, checksum and payload) is
/// accepted, and so is, for a hop probe, an ICMP Time Exceeded or
/// Destination Unreachable that quotes the request as sent.
pub proof fn lemma_raw_provider_accepts_answers(
    p: RawIcmpProvider,
    outer_header: Seq<u8>,
    seq: u16,
    code: u8,
    checksum: u16,
    payload: Seq<u8>,
    error_type: u8,
    rest_of_header: Seq<u8>,
    inner_ip_header: Seq<u8>,
)
    requires
        outer_header.len() >= 1,
        ip_version(outer_header[0]) == 4,
        outer_header.len() == ip_header_len(outer_header[0]),
        error_type == ICMP_TYPE_TIME_EXCEEDED || error_type == ICMP_TYPE_DEST_UNREACHABLE,
        rest_of_header.len() == 6,
        is_ipv4_header(inner_ip_header),
        inner_ip_header[9] == 1,
    ensures
        ({
            let reply = outer_header + echo_layout(
                ICMP_TYPE_ECHO_REPLY,
                code,
                checksum,
                p.spec_identifier(),
                seq,
                payload,
            );
            spec_decode_echo_reply(spec_strip_ipv4_header(reply)) matches Ok(r)
                && r.sequence_number == seq && r.identifier == p.spec_identifier()
        }),
        ({
            let quoted = spec_encode(p.spec_identifier(), seq, Seq::empty());
            let err = outer_header + error_message_layout(
                error_type,
                code,
                rest_of_header,
                inner_ip_header,
                quoted,
            );
            spec_decode_response(spec_strip_ipv4_header(err)) matches Ok(r)
                && spec_response_matches(r, seq, p.spec_identifier())
        }),
{
    let id = p.spec_identifier();
    let reply_msg = echo_layout(ICMP_TYPE_ECHO_REPLY, code, checksum, id, seq, payload);
    lemma_strip_ipv4_header(outer_header, reply_msg);
    lemma_echo_reply_roundtrip(code, checksum, id, seq, payload);
    let quoted = spec_encode(id, seq, Seq::empty());
    let err_msg = error_message_layout(error_type, code, rest_of_header, inner_ip_header, quoted);
    lemma_strip_ipv4_header(outer_header, err_msg);
    let c = super::packet::internet_checksum(spec_encode_without_checksum(id, seq, Seq::empty()));
    assert(quoted == echo_layout(ICMP_TYPE_ECHO_REQUEST, 0, c, id, seq, Seq::empty()));
    lemma_error_message_quotes_request(
        error_type,
        code,
        rest_of_header,
        inner_ip_header,
        c,
        id,
        seq,
        Seq::empty(),
    );
}

} // verus!
