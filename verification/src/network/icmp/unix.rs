use vstd::prelude::*;
use super::packet::{
    IcmpEchoReply,
    IcmpEchoRequest,
    IcmpResponse,
    spec_decode_echo_reply,
    spec_decode_response,
    spec_encode_without_checksum,
    echo_layout,
    error_message_layout,
    is_ipv4_header,
    lemma_echo_reply_roundtrip,
    lemma_error_message_quotes_request,
    ICMP_TYPE_ECHO_REPLY,
    ICMP_TYPE_TIME_EXCEEDED,
    ICMP_TYPE_DEST_UNREACHABLE,
};
use super::provider::{response_matches, spec_response_matches};

verus! {

/// ICMP over an unprivileged datagram socket: the kernel strips the IP
/// header from what it delivers and fills in the checksum of what is sent.
pub struct UnixDgramIcmp {
    identifier: u16,
}

impl UnixDgramIcmp {
    /// The identifier this provider puts in its echo requests.
    pub closed spec fn spec_identifier(&self) -> u16 {
        self.identifier
    }

    /// The identifier this provider puts in its echo requests.
    pub fn identifier(&self) -> (id: u16)
        ensures
            id == self.spec_identifier(),
    {
        self.identifier
    }

    pub fn new(identifier: u16) -> (p: Self)
        ensures
            p.spec_identifier() == identifier,
    {
        Self { identifier }
    }

    /// The echo request to send for sequence number `seq`: no payload, the
    /// checksum left to the kernel.
    pub fn echo_request(&self, seq: u16) -> (bytes: Vec<u8>)
        ensures
            bytes@ == spec_encode_without_checksum(self.spec_identifier(), seq, Seq::empty()),
    {
        let packet = IcmpEchoRequest::new(self.identifier, seq, Vec::new());
        packet.encode_without_checksum()
    }

    /// Whether a received datagram is the echo reply to the ping with
    /// sequence number `seq`.  Only the sequence number is compared: the
    /// kernel replaces the identifier of datagram ICMP sockets.
    pub fn accepts_echo_reply(&self, datagram: &[u8], seq: u16) -> (res: bool)
        ensures
            res == (spec_decode_echo_reply(datagram@) matches Ok(r) && r.sequence_number == seq),
    {
        match IcmpEchoReply::decode(datagram) {
            Ok(reply) => reply.sequence_number == seq,
            Err(_) => false,
        }
    }

    /// The response that a received datagram gives to the hop probe with
    /// sequence number `seq`, if it decodes and answers that probe.
    pub fn hop_response(&self, datagram: &[u8], seq: u16) -> (res: Option<IcmpResponse>)
        ensures
            res == (match spec_decode_response(datagram@) {
                Ok(r) => if spec_response_matches(r, seq, self.spec_identifier()) {
                    Some(r)
                } else {
                    None
                },
                Err(_) => None,
            }),
    {
        match IcmpResponse::decode(datagram) {
            Ok(response) => {
                if response_matches(&response, seq, self.identifier) {
                    Some(response)
                } else {
                    None
                }
            },
            Err(_) => None,
        }
    }
}

/// Law: the echo reply to the ping `seq` is accepted whatever identifier the
/// kernel put in it (any code, checksum and payload), and a hop probe's
/// answer, an ICMP Time Exceeded or Destination Unreachable quoting the
/// request as sent, is matched to it.
pub proof fn lemma_dgram_provider_accepts_answers(
    p: UnixDgramIcmp,
    seq: u16,
    reply_identifier: u16,
    code: u8,
    checksum: u16,
    payload: Seq<u8>,
    error_type: u8,
    rest_of_header: Seq<u8>,
    inner_ip_header: Seq<u8>,
)
    requires
        error_type == ICMP_TYPE_TIME_EXCEEDED || error_type == ICMP_TYPE_DEST_UNREACHABLE,
        rest_of_header.len() == 6,
        is_ipv4_header(inner_ip_header),
        inner_ip_header[9] == 1,
    ensures
        spec_decode_echo_reply(
            echo_layout(ICMP_TYPE_ECHO_REPLY, code, checksum, reply_identifier, seq, payload),
        ) matches Ok(r) && r.sequence_number == seq,
        ({
            let quoted = spec_encode_without_checksum(p.spec_identifier(), seq, Seq::empty());
            let err = error_message_layout(error_type, code, rest_of_header, inner_ip_header, quoted);
            spec_decode_response(err) matches Ok(r) && spec_response_matches(r, seq, p.spec_identifier())
        }),
{
    lemma_echo_reply_roundtrip(code, checksum, reply_identifier, seq, payload);
    lemma_error_message_quotes_request(
        error_type,
        code,
        rest_of_header,
        inner_ip_header,
        0,
        p.spec_identifier(),
        seq,
        Seq::empty(),
    );
}

} // verus!
