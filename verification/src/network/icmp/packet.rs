use vstd::prelude::*;

verus! {

/// ICMP Type for an Echo Request (Ping)
pub const ICMP_TYPE_ECHO_REQUEST: u8 = 8;

/// ICMP Code for an Echo Request is always 0
pub const ICMP_CODE_ECHO_REQUEST: u8 = 0;

pub const ICMP_TYPE_ECHO_REPLY: u8 = 0;

pub const ICMP_TYPE_DEST_UNREACHABLE: u8 = 3;

pub const ICMP_TYPE_TIME_EXCEEDED: u8 = 11;

// ---------------------------------------------------------------------------
// Byte-level model
// ---------------------------------------------------------------------------

/// High byte of a 16-bit value in network byte order.
pub open spec fn be_high(x: u16) -> u8 {
    (x / 256) as u8
}

/// Low byte of a 16-bit value in network byte order.
pub open spec fn be_low(x: u16) -> u8 {
    (x % 256) as u8
}

/// The 16-bit value whose network-byte-order encoding is `hi, lo`.
pub open spec fn be_u16(hi: u8, lo: u8) -> u16 {
    (hi as int * 256 + lo as int) as u16
}

/// The bytes of an ICMP echo message: the 8-byte header (type, code,
/// checksum, identifier, sequence number, all big-endian) followed by the
/// payload.
pub open spec fn echo_layout(
    type_: u8,
    code: u8,
    checksum: u16,
    identifier: u16,
    sequence_number: u16,
    payload: Seq<u8>,
) -> Seq<u8> {
    seq![
        type_,
        code,
        be_high(checksum),
        be_low(checksum),
        be_high(identifier),
        be_low(identifier),
        be_high(sequence_number),
        be_low(sequence_number),
    ] + payload
}

/// The echo request as it leaves the host when the kernel fills in the
/// checksum: the checksum field is zero.
pub open spec fn spec_encode_without_checksum(
    identifier: u16,
    sequence_number: u16,
    payload: Seq<u8>,
) -> Seq<u8> {
    echo_layout(ICMP_TYPE_ECHO_REQUEST, ICMP_CODE_ECHO_REQUEST, 0, identifier, sequence_number, payload)
}

/// The echo request with its Internet checksum in place.
pub open spec fn spec_encode(identifier: u16, sequence_number: u16, payload: Seq<u8>) -> Seq<u8> {
    echo_layout(
        ICMP_TYPE_ECHO_REQUEST,
        ICMP_CODE_ECHO_REQUEST,
        internet_checksum(spec_encode_without_checksum(identifier, sequence_number, payload)),
        identifier,
        sequence_number,
        payload,
    )
}

// ---------------------------------------------------------------------------
// RFC 1071 Internet checksum
// ---------------------------------------------------------------------------

/// Sum of the buffer read as consecutive big-endian 16-bit words; an odd
/// trailing byte is padded with a zero low byte.
pub open spec fn word_sum(s: Seq<u8>) -> nat
    decreases s.len(),
{
    if s.len() == 0 {
        0
    } else if s.len() == 1 {
        s[0] as nat * 256
    } else {
        s[0] as nat * 256 + s[1] as nat + word_sum(s.subrange(2, s.len() as int))
    }
}

/// End-around carry: the top 16 bits are added to the low 16 bits until no
/// carry is left.
pub open spec fn fold_carries(x: nat) -> nat
    decreases x,
{
    if x < 0x10000 {
        x
    } else {
        proof {
            lemma_fold_step_decreases(x);
        }
        fold_carries(x % 0x10000 + x / 0x10000)
    }
}

/// The Internet checksum of a buffer: the one's complement of the folded
/// one's-complement sum of its 16-bit words.
pub open spec fn internet_checksum(s: Seq<u8>) -> u16 {
    (0xFFFF - fold_carries(word_sum(s))) as u16
}

pub proof fn lemma_fold_step_decreases(x: nat)
    requires
        x >= 0x10000,
    ensures
        x % 0x10000 + x / 0x10000 < x,
{
    assert(x % 0x10000 + x / 0x10000 < x) by (nonlinear_arith)
        requires
            x >= 0x10000,
    ;
}

/// One folding step keeps the value modulo 0xFFFF.
proof fn lemma_fold_step_mod(x: nat)
    ensures
        (x % 0x10000 + x / 0x10000) % 0xFFFF == x % 0xFFFF,
{
    let q = (x / 0x10000) as int;
    let r = (x % 0x10000) as int;
    vstd::arithmetic::div_mod::lemma_fundamental_div_mod(x as int, 0x10000);
    assert(x as int == 0xFFFF * q + (r + q));
    vstd::arithmetic::div_mod::lemma_mod_multiples_vanish(q, r + q, 0xFFFF);
}

/// Folding keeps the sum modulo 0xFFFF, yields a 16-bit value, and yields
/// zero only for a zero sum.
pub proof fn lemma_fold_carries(x: nat)
    ensures
        fold_carries(x) < 0x10000,
        fold_carries(x) % 0xFFFF == x % 0xFFFF,
        fold_carries(x) == 0 <==> x == 0,
    decreases x,
{
    if x >= 0x10000 {
        lemma_fold_step_decreases(x);
        lemma_fold_step_mod(x);
        let y = x % 0x10000 + x / 0x10000;
        assert(x / 0x10000 > 0) by (nonlinear_arith)
            requires
                x >= 0x10000,
        ;
        lemma_fold_carries(y);
    }
}

/// Rewriting bytes 2 and 3 (the checksum field) changes only the second word.
proof fn lemma_word_sum_checksum_field(s: Seq<u8>, hi: u8, lo: u8)
    requires
        s.len() >= 4,
    ensures
        word_sum(s.update(2, hi).update(3, lo)) + s[2] as nat * 256 + s[3] as nat == word_sum(s)
            + hi as nat * 256 + lo as nat,
{
    let t = s.update(2, hi).update(3, lo);
    let s2 = s.subrange(2, s.len() as int);
    let t2 = t.subrange(2, t.len() as int);
    assert(t2.subrange(2, t2.len() as int) =~= s2.subrange(2, s2.len() as int));
    assert(t2[0] == hi && t2[1] == lo);
    assert(s2[0] == s[2] && s2[1] == s[3]);
    assert(t[0] == s[0] && t[1] == s[1]);
    assert(word_sum(s) == s[0] as nat * 256 + s[1] as nat + word_sum(s2));
    assert(word_sum(t) == t[0] as nat * 256 + t[1] as nat + word_sum(t2));
    assert(word_sum(s2) == s2[0] as nat * 256 + s2[1] as nat + word_sum(s2.subrange(2, s2.len() as int)));
    assert(word_sum(t2) == t2[0] as nat * 256 + t2[1] as nat + word_sum(t2.subrange(2, t2.len() as int)));
}

proof fn lemma_be_roundtrip(x: u16)
    ensures
        be_high(x) as nat * 256 + be_low(x) as nat == x as nat,
        be_u16(be_high(x), be_low(x)) == x,
{
}

/// Law: a packet that carries its Internet checksum checks out, that is,
/// the checksum computed over the transmitted echo request (checksum field
/// included) is zero.
pub proof fn lemma_encoded_packet_verifies(identifier: u16, sequence_number: u16, payload: Seq<u8>)
    ensures
        internet_checksum(spec_encode(identifier, sequence_number, payload)) == 0,
{
    let zeroed = spec_encode_without_checksum(identifier, sequence_number, payload);
    let c = internet_checksum(zeroed);
    let sent = spec_encode(identifier, sequence_number, payload);
    let total = word_sum(zeroed);
    lemma_fold_carries(total);
    let f = fold_carries(total);
    assert(c as nat == 0xFFFF - f);
    lemma_be_roundtrip(c);
    assert(sent =~= zeroed.update(2, be_high(c)).update(3, be_low(c)));
    lemma_word_sum_checksum_field(zeroed, be_high(c), be_low(c));
    assert(zeroed[2] == 0 && zeroed[3] == 0);
    let total2 = word_sum(sent);
    assert(total2 == total + c);
    lemma_fold_carries(total2);
    assert(total2 > 0);
    // total2 = total + 0xFFFF - f and total % 0xFFFF == f % 0xFFFF
    assert(total2 % 0xFFFF == 0) by {
        let m: int = 0xFFFF;
        vstd::arithmetic::div_mod::lemma_fundamental_div_mod(total as int, m);
        vstd::arithmetic::div_mod::lemma_fundamental_div_mod(f as int, m);
        let a = total as int / m;
        let b = f as int / m;
        let r = total as int % m;
        assert(f as int == m * b + r);
        assert(total2 as int == m * a + r + m - (m * b + r));
        assert(total2 as int == m * (a - b + 1)) by (nonlinear_arith)
            requires
                total2 as int == m * a + r + m - (m * b + r),
        ;
        vstd::arithmetic::div_mod::lemma_mod_multiples_vanish(a - b + 1, 0, m);
    }
    assert(fold_carries(total2) == 0xFFFF);
}

// ---------------------------------------------------------------------------
// Echo request
// ---------------------------------------------------------------------------

/// Represents an ICMP Echo Request Packet.
/// It strictly follows the 8-byte header structure defined in RFC 792.
#[derive(Debug)]
pub struct IcmpEchoRequest {
    pub identifier: u16,
    pub sequence_number: u16,
    pub payload: Vec<u8>,
}

fn high_byte(x: u16) -> (b: u8)
    ensures
        b == be_high(x),
{
    (x / 256) as u8
}

fn low_byte(x: u16) -> (b: u8)
    ensures
        b == be_low(x),
{
    (x % 256) as u8
}

impl IcmpEchoRequest {
    /// The transmitted bytes (checksum included) of this request.
    pub open spec fn wire_bytes(&self) -> Seq<u8> {
        spec_encode(self.identifier, self.sequence_number, self.payload@)
    }

    /// The bytes of this request with a zero checksum field.
    pub open spec fn unchecked_bytes(&self) -> Seq<u8> {
        spec_encode_without_checksum(self.identifier, self.sequence_number, self.payload@)
    }

    /// Constructs a new ICMP Echo Request.
    pub fn new(identifier: u16, sequence_number: u16, payload: Vec<u8>) -> (r: Self)
        ensures
            r.identifier == identifier,
            r.sequence_number == sequence_number,
            r.payload@ == payload@,
    {
        Self { identifier, sequence_number, payload }
    }

    /// Serializes the ICMP packet into the bytes sent over the wire, with the
    /// header fields in network byte order and the Internet checksum filled
    /// in.  The checksum accumulator is 32 bits wide: the packet's word sum
    /// has to fit in it.
    pub fn encode(&self) -> (buffer: Vec<u8>)
        requires
            word_sum(self.unchecked_bytes()) <= u32::MAX,
        ensures
            buffer@ == self.wire_bytes(),
            buffer@.len() == 8 + self.payload@.len(),
    {
        let mut buffer = self.encode_without_checksum();
        let checksum = Self::calculate_checksum(&buffer);
        buffer.set(2, high_byte(checksum));
        buffer.set(3, low_byte(checksum));
        assert(buffer@ =~= self.wire_bytes());
        buffer
    }

    /// Serializes the ICMP packet WITHOUT calculating the checksum (the
    /// checksum field stays zero).  Unix datagram ICMP sockets have the
    /// kernel fill it in.
    pub fn encode_without_checksum(&self) -> (buffer: Vec<u8>)
        ensures
            buffer@ == self.unchecked_bytes(),
            buffer@.len() == 8 + self.payload@.len(),
    {
        let mut buffer: Vec<u8> = Vec::with_capacity(8);
        buffer.push(ICMP_TYPE_ECHO_REQUEST);
        buffer.push(ICMP_CODE_ECHO_REQUEST);
        buffer.push(0);
        buffer.push(0);
        buffer.push(high_byte(self.identifier));
        buffer.push(low_byte(self.identifier));
        buffer.push(high_byte(self.sequence_number));
        buffer.push(low_byte(self.sequence_number));
        let ghost header = buffer@;
        let n = self.payload.len();
        let mut i: usize = 0;
        while i < n
            invariant
                n == self.payload@.len(),
                i <= n,
                buffer@ =~= header + self.payload@.subrange(0, i as int),
            decreases n - i,
        {
            buffer.push(self.payload[i]);
            i += 1;
        }
        assert(self.payload@.subrange(0, n as int) =~= self.payload@);
        buffer
    }

    /// Calculates the Internet Checksum as specified in RFC 1071.
    /// It uses a 32-bit accumulator to sum 16-bit words, folds the carries,
    /// and performs a bitwise NOT (1's complement) at the end.
    fn calculate_checksum(buffer: &[u8]) -> (checksum: u16)
        requires
            buffer@.len() >= 1,
            word_sum(buffer@) <= u32::MAX,
        ensures
            checksum == internet_checksum(buffer@),
    {
        let mut sum: u32 = 0;
        let mut i: usize = 0;
        let len = buffer.len();

        assert(buffer@.subrange(0, len as int) =~= buffer@);
        // Sum adjacent bytes as 16-bit words
        while i < len - 1
            invariant
                len == buffer@.len(),
                len >= 1,
                i <= len,
                i % 2 == 0,
                sum + word_sum(buffer@.subrange(i as int, len as int)) == word_sum(buffer@),
                word_sum(buffer@) <= u32::MAX,
            decreases len - i,
        {
            let ghost rest = buffer@.subrange(i as int, len as int);
            assert(rest.subrange(2, rest.len() as int) =~= buffer@.subrange(i + 2, len as int));
            let hi = buffer[i];
            let lo = buffer[i + 1];
            let word = (hi as u32) << 8 | (lo as u32);
            assert(((hi as u32) << 8 | (lo as u32)) == hi as u32 * 256 + lo as u32) by (bit_vector);
            sum += word;
            i += 2;
        }

        // If the payload length is odd, pad the last byte with zero
        if len % 2 != 0 {
            assert(i == len - 1);
            let last = buffer[len - 1];
            let word = (last as u32) << 8;
            assert(((last as u32) << 8) == last as u32 * 256) by (bit_vector);
            sum += word;
        } else {
            assert(i == len);
            assert(buffer@.subrange(i as int, len as int).len() == 0);
        }
        assert(sum == word_sum(buffer@));

        // Fold the 32-bit sum into 16 bits by adding the carry (top 16 bits) to the lower 16 bits.
        let ghost total = sum as nat;
        while (sum >> 16) > 0
            invariant
                fold_carries(sum as nat) == fold_carries(total),
            decreases sum,
        {
            assert((sum >> 16) == sum / 0x10000 && (sum & 0xffff) == sum % 0x10000) by (bit_vector);
            assert(sum >= 0x10000);
            proof {
                lemma_fold_step_decreases(sum as nat);
            }
            sum = (sum & 0xffff) + (sum >> 16);
        }
        assert((sum >> 16) == 0 ==> sum < 0x10000) by (bit_vector);
        assert(fold_carries(sum as nat) == sum);

        // Apply bitwise NOT (1's complement) and cast down to 16 bits
        assert(sum < 0x10000 ==> (!sum) as u16 == (0xFFFF - sum) as u16) by (bit_vector);
        #[verifier::truncate]
        (!sum as u16)
    }
}

// ---------------------------------------------------------------------------
// Decoding
// ---------------------------------------------------------------------------

pub const ERR_HEADER_TOO_SHORT: &'static str = "Buffer too short to contain a valid ICMP header";

pub const ERR_NOT_ECHO_REPLY: &'static str = "Not an ICMP Echo Reply";

pub const ERR_TOO_SHORT: &'static str = "Buffer too short";

pub const ERR_INNER_TOO_SHORT: &'static str = "Buffer too short to contain original IP and ICMP headers";

pub const ERR_INNER_NOT_IPV4: &'static str = "Original IP header is not IPv4";

pub const ERR_INNER_IHL_TOO_SHORT: &'static str = "Buffer too short based on original IHL";

pub const ERR_INNER_NOT_ICMP: &'static str = "Original protocol was not ICMP";

/// Represents an incoming ICMP Echo Reply Packet.
#[derive(Debug)]
pub struct IcmpEchoReply {
    pub type_: u8,
    pub code: u8,
    pub identifier: u16,
    pub sequence_number: u16,
}

#[derive(Debug)]
pub enum IcmpResponse {
    EchoReply(IcmpEchoReply),
    TimeExceeded(IcmpTimeExceeded),
    DestinationUnreachable(IcmpDestUnreachable),
    Unknown { type_: u8, code: u8 },
}

#[derive(Debug)]
pub struct IcmpTimeExceeded {
    pub code: u8,
    pub original_identifier: u16,
    pub original_sequence: u16,
}

#[derive(Debug)]
pub struct IcmpDestUnreachable {
    pub code: u8,
    pub original_identifier: u16,
    pub original_sequence: u16,
}

/// The IP version nibble of the first byte of an IP header.
pub open spec fn ip_version(b: u8) -> int {
    b as int / 16
}

/// The header length in bytes given by the IHL nibble of the first byte.
pub open spec fn ip_header_len(b: u8) -> int {
    (b as int % 16) * 4
}

/// What `IcmpEchoReply::decode` gives for a buffer.
pub open spec fn spec_decode_echo_reply(s: Seq<u8>) -> Result<IcmpEchoReply, &'static str> {
    if s.len() < 8 {
        Err(ERR_HEADER_TOO_SHORT)
    } else if s[0] != ICMP_TYPE_ECHO_REPLY {
        Err(ERR_NOT_ECHO_REPLY)
    } else {
        Ok(
            IcmpEchoReply {
                type_: s[0],
                code: s[1],
                identifier: be_u16(s[4], s[5]),
                sequence_number: be_u16(s[6], s[7]),
            },
        )
    }
}

/// The identifier and sequence number of the echo request quoted in the body
/// of an ICMP error message (Time Exceeded / Destination Unreachable):
/// bytes 0..8 are the error's own header, then the original IPv4 header, then
/// the first 8 bytes of the original ICMP header.
pub open spec fn spec_decode_error_body(s: Seq<u8>) -> Result<(u16, u16), &'static str> {
    if s.len() < 36 {
        Err(ERR_INNER_TOO_SHORT)
    } else if ip_version(s[8]) != 4 {
        Err(ERR_INNER_NOT_IPV4)
    } else if s.len() < 8 + ip_header_len(s[8]) + 8 {
        Err(ERR_INNER_IHL_TOO_SHORT)
    } else if s[17] != 1 {
        Err(ERR_INNER_NOT_ICMP)
    } else {
        let off = 8 + ip_header_len(s[8]);
        Ok((be_u16(s[off + 4], s[off + 5]), be_u16(s[off + 6], s[off + 7])))
    }
}

/// What `IcmpResponse::decode` gives for a buffer.
pub open spec fn spec_decode_response(s: Seq<u8>) -> Result<IcmpResponse, &'static str> {
    if s.len() < 8 {
        Err(ERR_TOO_SHORT)
    } else if s[0] == ICMP_TYPE_ECHO_REPLY {
        match spec_decode_echo_reply(s) {
            Ok(r) => Ok(IcmpResponse::EchoReply(r)),
            Err(e) => Err(e),
        }
    } else if s[0] == ICMP_TYPE_TIME_EXCEEDED {
        match spec_decode_error_body(s) {
            Ok((id, sq)) => Ok(
                IcmpResponse::TimeExceeded(
                    IcmpTimeExceeded { code: s[1], original_identifier: id, original_sequence: sq },
                ),
            ),
            Err(e) => Err(e),
        }
    } else if s[0] == ICMP_TYPE_DEST_UNREACHABLE {
        match spec_decode_error_body(s) {
            Ok((id, sq)) => Ok(
                IcmpResponse::DestinationUnreachable(
                    IcmpDestUnreachable { code: s[1], original_identifier: id, original_sequence: sq },
                ),
            ),
            Err(e) => Err(e),
        }
    } else {
        Ok(IcmpResponse::Unknown { type_: s[0], code: s[1] })
    }
}

/// The buffer with a leading IPv4 header removed, when it starts with one
/// that fits in it; otherwise the buffer itself.
pub open spec fn spec_strip_ipv4_header(s: Seq<u8>) -> Seq<u8> {
    if s.len() > 0 && ip_version(s[0]) == 4 && s.len() >= ip_header_len(s[0]) {
        s.subrange(ip_header_len(s[0]), s.len() as int)
    } else {
        s
    }
}

fn be_word(hi: u8, lo: u8) -> (w: u16)
    ensures
        w == be_u16(hi, lo),
{
    (hi as u16) * 256 + (lo as u16)
}

fn version_nibble(b: u8) -> (v: u8)
    ensures
        v as int == ip_version(b),
{
    assert(b >> 4 == b / 16) by (bit_vector);
    b >> 4
}

fn header_len_of(b: u8) -> (n: usize)
    ensures
        n as int == ip_header_len(b),
{
    assert(b & 0x0F == b % 16) by (bit_vector);
    ((b & 0x0F) as usize) * 4
}

impl IcmpEchoReply {
    /// Decodes a raw byte buffer into an IcmpEchoReply struct.
    /// Returns an Error if the buffer is too small or is not an echo reply.
    pub fn decode(buffer: &[u8]) -> (res: Result<Self, &'static str>)
        ensures
            res == spec_decode_echo_reply(buffer@),
    {
        // An ICMP header must be at least 8 bytes long.
        if buffer.len() < 8 {
            return Err(ERR_HEADER_TOO_SHORT);
        }
        let type_ = buffer[0];
        let code = buffer[1];
        // Only parse if it's actually an Echo Reply.
        if type_ != ICMP_TYPE_ECHO_REPLY {
            return Err(ERR_NOT_ECHO_REPLY);
        }
        let identifier = be_word(buffer[4], buffer[5]);
        let sequence_number = be_word(buffer[6], buffer[7]);
        Ok(Self { type_, code, identifier, sequence_number })
    }
}

impl IcmpResponse {
    /// Removes a leading IPv4 header (raw sockets deliver it) when the buffer
    /// starts with one that fits in it.
    pub fn strip_ipv4_header(buffer: &[u8]) -> (rest: &[u8])
        ensures
            rest@ == spec_strip_ipv4_header(buffer@),
    {
        if buffer.len() > 0 && version_nibble(buffer[0]) == 4 {
            let header_len = header_len_of(buffer[0]);
            if buffer.len() >= header_len {
                let (_, rest) = buffer.split_at(header_len);
                return rest;
            }
        }
        buffer
    }

    /// Decodes an ICMP message: echo replies, Time Exceeded and Destination
    /// Unreachable (with the quoted original request), anything else as
    /// `Unknown`.
    pub fn decode(buffer: &[u8]) -> (res: Result<Self, &'static str>)
        ensures
            res == spec_decode_response(buffer@),
    {
        if buffer.len() < 8 {
            return Err(ERR_TOO_SHORT);
        }
        let t = buffer[0];
        if t == ICMP_TYPE_ECHO_REPLY {
            match IcmpEchoReply::decode(buffer) {
                Ok(r) => Ok(IcmpResponse::EchoReply(r)),
                Err(e) => Err(e),
            }
        } else if t == ICMP_TYPE_TIME_EXCEEDED {
            match Self::decode_time_exceeded(buffer) {
                Ok(r) => Ok(IcmpResponse::TimeExceeded(r)),
                Err(e) => Err(e),
            }
        } else if t == ICMP_TYPE_DEST_UNREACHABLE {
            match Self::decode_dest_unreachable(buffer) {
                Ok(r) => Ok(IcmpResponse::DestinationUnreachable(r)),
                Err(e) => Err(e),
            }
        } else {
            Ok(IcmpResponse::Unknown { type_: t, code: buffer[1] })
        }
    }

    fn decode_time_exceeded(buffer: &[u8]) -> (res: Result<IcmpTimeExceeded, &'static str>)
        requires
            buffer@.len() >= 8,
        ensures
            res == (match spec_decode_error_body(buffer@) {
                Ok((id, sq)) => Ok(
                    IcmpTimeExceeded { code: buffer@[1], original_identifier: id, original_sequence: sq },
                ),
                Err(e) => Err(e),
            }),
    {
        match Self::decode_error_body(buffer) {
            Ok((identifier, sequence)) => Ok(
                IcmpTimeExceeded {
                    code: buffer[1],
                    original_identifier: identifier,
                    original_sequence: sequence,
                },
            ),
            Err(e) => Err(e),
        }
    }

    fn decode_dest_unreachable(buffer: &[u8]) -> (res: Result<IcmpDestUnreachable, &'static str>)
        requires
            buffer@.len() >= 8,
        ensures
            res == (match spec_decode_error_body(buffer@) {
                Ok((id, sq)) => Ok(
                    IcmpDestUnreachable { code: buffer@[1], original_identifier: id, original_sequence: sq },
                ),
                Err(e) => Err(e),
            }),
    {
        match Self::decode_error_body(buffer) {
            Ok((identifier, sequence)) => Ok(
                IcmpDestUnreachable {
                    code: buffer[1],
                    original_identifier: identifier,
                    original_sequence: sequence,
                },
            ),
            Err(e) => Err(e),
        }
    }

    fn decode_error_body(buffer: &[u8]) -> (res: Result<(u16, u16), &'static str>)
        ensures
            res == spec_decode_error_body(buffer@),
    {
        // Buffer layout (DGRAM/RAW ICMP payload):
        // [0..8] ICMP Header (Time Exceeded / Dest Unreachable)
        // [8..X] Original IP Header (usually 20 bytes)
        // [X..X+8] Original ICMP Header
        if buffer.len() < 36 {
            return Err(ERR_INNER_TOO_SHORT);
        }
        // Ensure it's an IPv4 header by checking version (first 4 bits)
        if version_nibble(buffer[8]) != 4 {
            return Err(ERR_INNER_NOT_IPV4);
        }
        let ip_header_len = header_len_of(buffer[8]);
        if buffer.len() < 8 + ip_header_len + 8 {
            return Err(ERR_INNER_IHL_TOO_SHORT);
        }
        // Offset 9 in IP header is the Protocol field
        if buffer[8 + 9] != 1 {
            return Err(ERR_INNER_NOT_ICMP);
        }
        let off = 8 + ip_header_len;
        // Identifier is at offset 4, Sequence is at offset 6 of the original ICMP header
        let identifier = be_word(buffer[off + 4], buffer[off + 5]);
        let sequence = be_word(buffer[off + 6], buffer[off + 7]);
        Ok((identifier, sequence))
    }
}

// ---------------------------------------------------------------------------
// Laws relating the encoder and the decoders
// ---------------------------------------------------------------------------

/// Law: the echo reply decoder reads back the fields written in the echo
/// message layout: a reply carrying identifier `identifier` and sequence
/// number `sequence_number` decodes to exactly those, whatever its checksum
/// and payload.
pub proof fn lemma_echo_reply_roundtrip(
    code: u8,
    checksum: u16,
    identifier: u16,
    sequence_number: u16,
    payload: Seq<u8>,
)
    ensures
        spec_decode_echo_reply(
            echo_layout(ICMP_TYPE_ECHO_REPLY, code, checksum, identifier, sequence_number, payload),
        ) == Ok::<IcmpEchoReply, &'static str>(
            IcmpEchoReply { type_: ICMP_TYPE_ECHO_REPLY, code, identifier, sequence_number },
        ),
        spec_decode_response(
            echo_layout(ICMP_TYPE_ECHO_REPLY, code, checksum, identifier, sequence_number, payload),
        ) == Ok::<IcmpResponse, &'static str>(
            IcmpResponse::EchoReply(
                IcmpEchoReply { type_: ICMP_TYPE_ECHO_REPLY, code, identifier, sequence_number },
            ),
        ),
{
    lemma_be_roundtrip(identifier);
    lemma_be_roundtrip(sequence_number);
}

/// Law: an echo request (ours looped back, or anyone's) is never taken for
/// an echo reply: it decodes as an `Unknown` message of type 8, code 0.
pub proof fn lemma_request_is_not_a_reply(checksum: u16, identifier: u16, sequence_number: u16, payload: Seq<u8>)
    ensures
        spec_decode_echo_reply(
            echo_layout(ICMP_TYPE_ECHO_REQUEST, ICMP_CODE_ECHO_REQUEST, checksum, identifier, sequence_number, payload),
        ) == Err::<IcmpEchoReply, &'static str>(ERR_NOT_ECHO_REPLY),
        spec_decode_response(
            echo_layout(ICMP_TYPE_ECHO_REQUEST, ICMP_CODE_ECHO_REQUEST, checksum, identifier, sequence_number, payload),
        ) == Ok::<IcmpResponse, &'static str>(
            IcmpResponse::Unknown { type_: ICMP_TYPE_ECHO_REQUEST, code: ICMP_CODE_ECHO_REQUEST },
        ),
{
}

/// A well-formed IPv4 header: version 4, its IHL matches its length, and it
/// is at least the 20 bytes that hold the protocol field.
pub open spec fn is_ipv4_header(h: Seq<u8>) -> bool {
    &&& h.len() >= 20
    &&& ip_version(h[0]) == 4
    &&& h.len() == ip_header_len(h[0])
}

/// An ICMP error message: the 8-byte error header (type, code and six more
/// bytes), then the original IPv4 header, then the original ICMP message.
pub open spec fn error_message_layout(
    type_: u8,
    code: u8,
    rest_of_header: Seq<u8>,
    inner_ip_header: Seq<u8>,
    inner_message: Seq<u8>,
) -> Seq<u8> {
    seq![type_, code] + rest_of_header + inner_ip_header + inner_message
}

/// Law: an ICMP Time Exceeded or Destination Unreachable message that quotes
/// one of our echo requests (any checksum, any payload) behind an IPv4
/// header that says ICMP is decoded to that request's identifier and
/// sequence number, so it is matched to the probe that caused it.
pub proof fn lemma_error_message_quotes_request(
    type_: u8,
    code: u8,
    rest_of_header: Seq<u8>,
    inner_ip_header: Seq<u8>,
    checksum: u16,
    identifier: u16,
    sequence_number: u16,
    payload: Seq<u8>,
)
    requires
        type_ == ICMP_TYPE_TIME_EXCEEDED || type_ == ICMP_TYPE_DEST_UNREACHABLE,
        rest_of_header.len() == 6,
        is_ipv4_header(inner_ip_header),
        inner_ip_header[9] == 1,
    ensures
        ({
            let msg = error_message_layout(
                type_,
                code,
                rest_of_header,
                inner_ip_header,
                echo_layout(ICMP_TYPE_ECHO_REQUEST, 0, checksum, identifier, sequence_number, payload),
            );
            &&& spec_decode_error_body(msg) == Ok::<(u16, u16), &'static str>((identifier, sequence_number))
            &&& type_ == ICMP_TYPE_TIME_EXCEEDED ==> spec_decode_response(msg) == Ok::<
                IcmpResponse,
                &'static str,
            >(
                IcmpResponse::TimeExceeded(
                    IcmpTimeExceeded {
                        code,
                        original_identifier: identifier,
                        original_sequence: sequence_number,
                    },
                ),
            )
            &&& type_ == ICMP_TYPE_DEST_UNREACHABLE ==> spec_decode_response(msg) == Ok::<
                IcmpResponse,
                &'static str,
            >(
                IcmpResponse::DestinationUnreachable(
                    IcmpDestUnreachable {
                        code,
                        original_identifier: identifier,
                        original_sequence: sequence_number,
                    },
                ),
            )
        }),
{
    let inner = echo_layout(ICMP_TYPE_ECHO_REQUEST, 0, checksum, identifier, sequence_number, payload);
    let msg = error_message_layout(type_, code, rest_of_header, inner_ip_header, inner);
    let hl = ip_header_len(inner_ip_header[0]);
    assert(msg.len() == 8 + hl + inner.len());
    assert(msg[8] == inner_ip_header[0]);
    assert(msg[17] == inner_ip_header[9]);
    assert(msg[8 + hl + 4] == inner[4]);
    assert(msg[8 + hl + 5] == inner[5]);
    assert(msg[8 + hl + 6] == inner[6]);
    assert(msg[8 + hl + 7] == inner[7]);
    assert(msg[0] == type_ && msg[1] == code);
    lemma_be_roundtrip(identifier);
    lemma_be_roundtrip(sequence_number);
}

/// Law: removing the IPv4 header that a raw socket puts in front of an ICMP
/// message gives back exactly that ICMP message.
pub proof fn lemma_strip_ipv4_header(header: Seq<u8>, message: Seq<u8>)
    requires
        header.len() >= 1,
        ip_version(header[0]) == 4,
        header.len() == ip_header_len(header[0]),
    ensures
        spec_strip_ipv4_header(header + message) == message,
{
    let s = header + message;
    assert(s[0] == header[0]);
    assert(s.subrange(header.len() as int, s.len() as int) =~= message);
}

/// Law: the echo reply decoder accepts exactly the messages of ICMP type 0
/// that hold a whole header, and reads the code, identifier and sequence
/// number from bytes 1, 4..6 and 6..8 (big-endian); any other type is
/// refused as not an echo reply, and a short buffer as too short.
pub proof fn lemma_echo_reply_decoder_accepts_only_replies(s: Seq<u8>)
    ensures
        s.len() < 8 ==> (spec_decode_echo_reply(s) matches Err(e) && e == ERR_HEADER_TOO_SHORT),
        s.len() >= 8 && s[0] != 0u8 ==> (spec_decode_echo_reply(s) matches Err(e) && e
            == ERR_NOT_ECHO_REPLY),
        s.len() >= 8 && s[0] == 0u8 ==> spec_decode_echo_reply(s) is Ok,
        spec_decode_echo_reply(s) matches Ok(r) ==> {
            &&& s.len() >= 8
            &&& s[0] == 0u8
            &&& r.type_ == 0u8
            &&& r.code == s[1]
            &&& r.identifier as int == s[4] as int * 256 + s[5] as int
            &&& r.sequence_number as int == s[6] as int * 256 + s[7] as int
        },
{
}

/// Law: a decoded response has the kind that the message's type byte
/// names: an echo reply comes only from type 0, a Time Exceeded only from
/// type 11 and a Destination Unreachable only from type 3, each with the
/// message's code; every other type is `Unknown` with its type and code.
pub proof fn lemma_response_kind_follows_type(s: Seq<u8>)
    ensures
        spec_decode_response(s) matches Ok(IcmpResponse::EchoReply(r)) ==> s[0] == 0u8 && r.code
            == s[1],
        spec_decode_response(s) matches Ok(IcmpResponse::TimeExceeded(t)) ==> s[0] == 11u8
            && t.code == s[1],
        spec_decode_response(s) matches Ok(IcmpResponse::DestinationUnreachable(d)) ==> s[0] == 3u8
            && d.code == s[1],
        spec_decode_response(s) matches Ok(IcmpResponse::Unknown { type_, code }) ==> {
            &&& type_ == s[0]
            &&& code == s[1]
            &&& s[0] != 0u8
            &&& s[0] != 3u8
            &&& s[0] != 11u8
        },
        s.len() >= 8 && s[0] != 0u8 && s[0] != 3u8 && s[0] != 11u8 ==> spec_decode_response(s) is Ok,
{
}

} // verus!
