use vstd::prelude::*;
use crate::network::icmp::packet::IcmpResponse;
use crate::text::{spec_decimal, decimal_text};

verus! {

/// Echo requests sent per TTL.
pub const PROBES_PER_HOP: u16 = 3;

/// The echo sequence number of probe `probe_idx` (0, 1 or 2) at `ttl`.
pub fn probe_sequence(ttl: u8, probe_idx: u16) -> (seq: u16)
    requires
        probe_idx < PROBES_PER_HOP,
    ensures
        seq == ttl * 3 + probe_idx,
{
    (ttl as u16) * 3 + probe_idx
}

/// Law: every probe of a traceroute carries its own sequence number, so an
/// answer is never credited to another hop or another probe.
pub proof fn lemma_probe_sequences_distinct(ttl1: u8, idx1: u16, ttl2: u8, idx2: u16)
    requires
        idx1 < PROBES_PER_HOP,
        idx2 < PROBES_PER_HOP,
        ttl1 * 3 + idx1 == ttl2 * 3 + idx2,
    ensures
        ttl1 == ttl2,
        idx1 == idx2,
{
}

/// The text "Type: <t>, Code: <c>" describing an ICMP message type and code.
pub open spec fn describe_type_code(t: u8, c: u8) -> Seq<char> {
    "Type: "@ + spec_decimal(t as nat) + ", Code: "@ + spec_decimal(c as nat)
}

/// Builds "Type: <t>, Code: <c>".
pub fn type_code_text(t: u8, c: u8) -> (s: String)
    ensures
        s@ == describe_type_code(t, c),
{
    let mut s = String::from_str("Type: ");
    let ts = decimal_text(t as u64);
    s.append(ts.as_str());
    s.append(", Code: ");
    let cs = decimal_text(c as u64);
    s.append(cs.as_str());
    s
}

/// Whether a matched answer shows that the probe reached the destination:
/// an echo reply, or the destination itself saying it is unreachable.
pub open spec fn spec_reaches_destination(r: IcmpResponse) -> bool {
    r is EchoReply || r is DestinationUnreachable
}

/// The error text a matched answer contributes to its hop: none for an echo
/// reply, "Type: <t>, Code: <c>" for anything else.
pub open spec fn spec_answer_error_text(r: IcmpResponse) -> Option<Seq<char>> {
    match r {
        IcmpResponse::EchoReply(_) => None,
        IcmpResponse::TimeExceeded(t) => Some(describe_type_code(11, t.code)),
        IcmpResponse::DestinationUnreachable(d) => Some(describe_type_code(3, d.code)),
        IcmpResponse::Unknown { type_, code } => Some(describe_type_code(type_, code)),
    }
}

/// The bookkeeping of one TTL while its probes are answered (the
/// round-trip times are summed by the caller).
pub struct HopProgress {
    pub ttl: u8,
    /// Probes of this TTL that were answered.
    pub replies: u16,
    /// Address of the latest responder.
    pub last_responder: Option<String>,
    pub destination_reached: bool,
    /// Description of the latest non-echo answer.
    pub last_error_text: Option<String>,
}

/// The finished record of one TTL.
pub struct HopSummary {
    pub hop_number: u8,
    pub ip_address: Option<String>,
    pub is_destination: bool,
    pub icmp_error: Option<String>,
    /// How many probes were answered; the average round-trip time is taken
    /// over these.
    pub replies: u16,
}

/// An optional string by its characters.
pub open spec fn opt_view(o: Option<String>) -> Option<Seq<char>> {
    match o {
        Some(s) => Some(s@),
        None => None,
    }
}

impl HopProgress {
    /// Nothing answered yet at `ttl`.
    pub fn new(ttl: u8) -> (h: Self)
        ensures
            h.ttl == ttl,
            h.replies == 0,
            h.last_responder is None,
            !h.destination_reached,
            h.last_error_text is None,
    {
        HopProgress {
            ttl,
            replies: 0,
            last_responder: None,
            destination_reached: false,
            last_error_text: None,
        }
    }

    /// Records a matched answer from `responder`.
    pub fn record_answer(&mut self, responder: String, response: &IcmpResponse)
        requires
            old(self).replies < u16::MAX,
        ensures
            final(self).ttl == old(self).ttl,
            final(self).replies == old(self).replies + 1,
            opt_view(final(self).last_responder) == Some(responder@),
            final(self).destination_reached == (old(self).destination_reached
                || spec_reaches_destination(*response)),
            opt_view(final(self).last_error_text) == (match spec_answer_error_text(*response) {
                Some(t) => Some(t),
                None => opt_view(old(self).last_error_text),
            }),
    {
        let (reaches, text) = match response {
            IcmpResponse::EchoReply(_) => (true, None),
            IcmpResponse::TimeExceeded(t) => (false, Some(type_code_text(11, t.code))),
            IcmpResponse::DestinationUnreachable(d) => (true, Some(type_code_text(3, d.code))),
            IcmpResponse::Unknown { type_, code } => (false, Some(type_code_text(*type_, *code))),
        };
        self.replies = self.replies + 1;
        self.last_responder = Some(responder);
        if reaches {
            self.destination_reached = true;
        }
        if text.is_some() {
            self.last_error_text = text;
        }
    }

    /// The record of this TTL.  A TTL that nobody answered has no address,
    /// is not the destination and carries no error text.
    pub fn finish(self) -> (s: HopSummary)
        ensures
            s.hop_number == self.ttl,
            s.replies == self.replies,
            self.replies > 0 ==> {
                &&& opt_view(s.ip_address) == opt_view(self.last_responder)
                &&& s.is_destination == self.destination_reached
                &&& opt_view(s.icmp_error) == opt_view(self.last_error_text)
            },
            self.replies == 0 ==> s.ip_address is None && !s.is_destination && s.icmp_error is None,
    {
        if self.replies > 0 {
            HopSummary {
                hop_number: self.ttl,
                ip_address: self.last_responder,
                is_destination: self.destination_reached,
                icmp_error: self.last_error_text,
                replies: self.replies,
            }
        } else {
            HopSummary {
                hop_number: self.ttl,
                ip_address: None,
                is_destination: false,
                icmp_error: None,
                replies: 0,
            }
        }
    }
}

/// The first TTL a traceroute tries: 1, unless the hop limit is zero.
pub fn first_ttl(max_hops: u8) -> (first: Option<u8>)
    ensures
        first == (if max_hops >= 1 {
            Some(1u8)
        } else {
            None
        }),
{
    if max_hops >= 1 {
        Some(1)
    } else {
        None
    }
}

/// The TTL to try after `ttl`: none once the destination answered or the
/// hop limit is reached.
pub fn next_ttl(ttl: u8, max_hops: u8, destination_reached: bool) -> (next: Option<u8>)
    ensures
        next == (if destination_reached || ttl >= max_hops {
            None
        } else {
            Some((ttl + 1) as u8)
        }),
{
    if destination_reached || ttl >= max_hops {
        None
    } else {
        Some(ttl + 1)
    }
}

} // verus!
