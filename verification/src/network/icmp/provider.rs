use vstd::prelude::*;
use super::packet::IcmpResponse;

verus! {

/// Whether a decoded response answers the probe sent with sequence number
/// `seq` and identifier `identifier`: an echo reply must carry both, an ICMP
/// error must quote a request that carried both, and any other message
/// answers nothing.
pub open spec fn spec_response_matches(response: IcmpResponse, seq: u16, identifier: u16) -> bool {
    match response {
        IcmpResponse::EchoReply(r) => r.sequence_number == seq && r.identifier == identifier,
        IcmpResponse::TimeExceeded(t) => t.original_sequence == seq && t.original_identifier
            == identifier,
        IcmpResponse::DestinationUnreachable(d) => d.original_sequence == seq
            && d.original_identifier == identifier,
        IcmpResponse::Unknown { .. } => false,
    }
}

/// Whether `response` answers the probe `(seq, identifier)`.
pub fn response_matches(response: &IcmpResponse, seq: u16, identifier: u16) -> (res: bool)
    ensures
        res == spec_response_matches(*response, seq, identifier),
{
    match response {
        IcmpResponse::EchoReply(r) => r.sequence_number == seq && r.identifier == identifier,
        IcmpResponse::TimeExceeded(t) => t.original_sequence == seq && t.original_identifier
            == identifier,
        IcmpResponse::DestinationUnreachable(d) => d.original_sequence == seq
            && d.original_identifier == identifier,
        IcmpResponse::Unknown { .. } => false,
    }
}

/// Law: a response answers the probe `(seq, identifier)` exactly when the
/// request it answers (an echo reply) or quotes (an ICMP error) carried that
/// same sequence number and identifier; a message of any other kind
/// answers no probe.
pub proof fn lemma_match_means_same_probe(response: IcmpResponse, seq: u16, identifier: u16)
    ensures
        response matches IcmpResponse::EchoReply(r) ==> (spec_response_matches(
            response,
            seq,
            identifier,
        ) <==> (r.sequence_number == seq && r.identifier == identifier)),
        response matches IcmpResponse::TimeExceeded(t) ==> (spec_response_matches(
            response,
            seq,
            identifier,
        ) <==> (t.original_sequence == seq && t.original_identifier == identifier)),
        response matches IcmpResponse::DestinationUnreachable(d) ==> (spec_response_matches(
            response,
            seq,
            identifier,
        ) <==> (d.original_sequence == seq && d.original_identifier == identifier)),
        response is Unknown ==> !spec_response_matches(response, seq, identifier),
{
}

/// Law: one response answers at most one probe: if it matches two probes,
/// they have the same sequence number and the same identifier.
pub proof fn lemma_response_answers_one_probe(
    response: IcmpResponse,
    seq1: u16,
    identifier1: u16,
    seq2: u16,
    identifier2: u16,
)
    requires
        spec_response_matches(response, seq1, identifier1),
        spec_response_matches(response, seq2, identifier2),
    ensures
        seq1 == seq2,
        identifier1 == identifier2,
{
}

} // verus!
