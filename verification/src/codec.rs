//! Bidirectional mapping between structured echo fields and the exact
//! ICMP wire byte layout, including the RFC 1071 internet checksum.

use vstd::prelude::*;

verus! {

/// Minimum length of an ICMP message: the 8-byte header holding type,
/// code, checksum, identifier and sequence number.
pub const ICMP_HEADER_LEN: usize = 8;

/// ICMP message type of an echo request.
pub const ICMP_TYPE_ECHO_REQUEST: u8 = 8;

/// ICMP message type of an echo reply.
pub const ICMP_TYPE_ECHO_REPLY: u8 = 0;

/// The only valid code for echo messages.
pub const ICMP_CODE_NO_CODE: u8 = 0;

/// The 16-bit big-endian word of `s` that starts at byte `2 * i`; an
/// odd-length message is padded with a trailing zero byte.
pub open spec fn word_at(s: Seq<u8>, i: int) -> int {
    (s[2 * i] as int) * 256 + (if 2 * i + 1 < s.len() {
        s[2 * i + 1] as int
    } else {
        0
    })
}

/// Sum of the first `n` 16-bit words of `s`.
pub open spec fn word_sum(s: Seq<u8>, n: int) -> int
    decreases n,
{
    if n <= 0 {
        0
    } else {
        word_sum(s, n - 1) + word_at(s, n - 1)
    }
}

/// How many 16-bit words `s` holds, counting a padded final word when
/// its length is odd.
pub open spec fn word_count(s: Seq<u8>) -> int {
    (s.len() + 1) as int / 2
}

/// Folds any carry out of the low 16 bits back into the accumulator,
/// repeating until none is left.
pub open spec fn fold_carries(x: int) -> int
    recommends
        x >= 0,
    decreases x,
{
    if x < 0x10000 {
        x
    } else {
        fold_carries(x % 0x10000 + x / 0x10000)
    }
}

/// The internet checksum of `s`: the one's complement of the
/// carry-folded sum of its 16-bit words.
pub open spec fn icmp_checksum(s: Seq<u8>) -> int {
    0xFFFF - fold_carries(word_sum(s, word_count(s)))
}

/// Every word of a byte sequence is non-negative, hence so is any
/// partial word sum.
pub proof fn lemma_word_sum_nonneg(s: Seq<u8>, n: int)
    requires
        2 * n <= s.len() + 1,
    ensures
        word_sum(s, n) >= 0,
    decreases n,
{
    if n > 0 {
        lemma_word_sum_nonneg(s, n - 1);
    }
}

/// Carry folding of a non-negative accumulator lands in the 16-bit
/// range.
pub proof fn lemma_fold_carries_bounds(x: int)
    requires
        x >= 0,
    ensures
        0 <= fold_carries(x) <= 0xFFFF,
    decreases x,
{
    if x >= 0x10000 {
        lemma_fold_carries_bounds(x % 0x10000 + x / 0x10000);
    }
}

/// Computes the RFC 1071 internet checksum of `bytes`: all 16-bit
/// big-endian words are summed (an odd-length message is padded with a
/// zero byte), carries are folded back in, and the result is
/// complemented.
pub fn checksum(bytes: &[u8]) -> (r: u16)
    ensures
        r as int == icmp_checksum(bytes@),
{
    let n = bytes.len();
    let mut acc: u128 = 0;
    let mut i: usize = 0;
    while i < n
        invariant
            n == bytes@.len(),
            i <= n,
            i % 2 == 0 || i == n,
            acc == word_sum(bytes@, (i + 1) as int / 2),
            acc <= ((i + 1) as int / 2) * 0xFFFF,
        decreases n - i,
    {
        let hi = bytes[i] as u128;
        let lo: u128 = if i + 1 < n {
            bytes[i + 1] as u128
        } else {
            0
        };
        proof {
            assert(word_at(bytes@, i as int / 2) == hi * 256 + lo);
        }
        acc = acc + hi * 256 + lo;
        if n - i >= 2 {
            i = i + 2;
        } else {
            i = n;
        }
    }
    proof {
        assert(acc == word_sum(bytes@, word_count(bytes@)));
        lemma_word_sum_nonneg(bytes@, word_count(bytes@));
    }
    let ghost total: int = word_sum(bytes@, word_count(bytes@));
    while acc > 0xFFFF
        invariant
            fold_carries(acc as int) == fold_carries(total),
        decreases acc,
    {
        acc = acc % 0x10000 + acc / 0x10000;
    }
    0xFFFF - (acc as u16)
}

/// The big-endian 16-bit field of `s` at byte offset `i`.
pub open spec fn be16_at(s: Seq<u8>, i: int) -> int {
    (s[i] as int) * 256 + (s[i + 1] as int)
}

/// The bytes of an echo request for `identifier` and `sequence` with
/// the checksum field still zero: the form the checksum is computed
/// over.
pub open spec fn echo_request_zero_checksum(identifier: u16, sequence: u16) -> Seq<u8> {
    seq![
        ICMP_TYPE_ECHO_REQUEST,
        ICMP_CODE_NO_CODE,
        0u8,
        0u8,
        (identifier / 256) as u8,
        (identifier % 256) as u8,
        (sequence / 256) as u8,
        (sequence % 256) as u8,
    ]
}

/// The exact wire bytes of an echo request for `identifier` and
/// `sequence`, checksum field filled in.
pub open spec fn echo_request_bytes(identifier: u16, sequence: u16) -> Seq<u8> {
    let c = icmp_checksum(echo_request_zero_checksum(identifier, sequence));
    seq![
        ICMP_TYPE_ECHO_REQUEST,
        ICMP_CODE_NO_CODE,
        (c / 256) as u8,
        (c % 256) as u8,
        (identifier / 256) as u8,
        (identifier % 256) as u8,
        (sequence / 256) as u8,
        (sequence % 256) as u8,
    ]
}

/// Encodes an outbound echo request: type, code, identifier and
/// sequence at their fixed offsets, then the internet checksum of the
/// zero-checksum message written into bytes 2 and 3. The returned
/// buffer is ready for transmission as-is.
pub fn encode_echo_request(identifier: u16, sequence: u16) -> (r: Vec<u8>)
    ensures
        r@ == echo_request_bytes(identifier, sequence),
        r@.len() == ICMP_HEADER_LEN,
{
    let mut scratch: Vec<u8> = Vec::new();
    scratch.push(ICMP_TYPE_ECHO_REQUEST);
    scratch.push(ICMP_CODE_NO_CODE);
    scratch.push(0);
    scratch.push(0);
    scratch.push((identifier / 256) as u8);
    scratch.push((identifier % 256) as u8);
    scratch.push((sequence / 256) as u8);
    scratch.push((sequence % 256) as u8);
    proof {
        assert(scratch@ =~= echo_request_zero_checksum(identifier, sequence));
    }
    let c = checksum(scratch.as_slice());
    proof {
        lemma_word_sum_nonneg(scratch@, word_count(scratch@));
        lemma_fold_carries_bounds(word_sum(scratch@, word_count(scratch@)));
    }
    let mut buffer: Vec<u8> = Vec::new();
    buffer.push(ICMP_TYPE_ECHO_REQUEST);
    buffer.push(ICMP_CODE_NO_CODE);
    buffer.push((c / 256) as u8);
    buffer.push((c % 256) as u8);
    buffer.push((identifier / 256) as u8);
    buffer.push((identifier % 256) as u8);
    buffer.push((sequence / 256) as u8);
    buffer.push((sequence % 256) as u8);
    proof {
        assert(buffer@ =~= echo_request_bytes(identifier, sequence));
    }
    buffer
}

/// Why an inbound datagram could not be decoded.
#[derive(Clone, Copy, Debug, PartialEq, Eq, Structural)]
pub enum DecodeError {
    /// The buffer is shorter than the minimum ICMP header length.
    TooShort,
}

/// A decoded view over one inbound wire message: the five header
/// fields at their fixed offsets. Only echo types make the identifier
/// and sequence meaningful; other types decode but are ignored by
/// correlation.
#[derive(Clone, Copy, Debug, PartialEq, Eq, Structural)]
pub struct EchoReply {
    /// ICMP message type (byte 0).
    pub icmp_type: u8,
    /// ICMP message code (byte 1).
    pub code: u8,
    /// Stored checksum field (bytes 2 and 3, network byte order).
    pub checksum: u16,
    /// Echo identifier (bytes 4 and 5, network byte order).
    pub identifier: u16,
    /// Echo sequence number (bytes 6 and 7, network byte order).
    pub sequence: u16,
}

/// The header fields of `s` read at their fixed offsets.
pub open spec fn parsed_reply(s: Seq<u8>) -> EchoReply {
    EchoReply {
        icmp_type: s[0],
        code: s[1],
        checksum: be16_at(s, 2) as u16,
        identifier: be16_at(s, 4) as u16,
        sequence: be16_at(s, 6) as u16,
    }
}

/// Decodes one inbound ICMP message header. Any byte sequence of at
/// least the minimum header length decodes; a shorter one is rejected
/// with `TooShort`.
pub fn decode_message(bytes: &[u8]) -> (r: Result<EchoReply, DecodeError>)
    ensures
        bytes@.len() >= ICMP_HEADER_LEN ==> r == Ok::<EchoReply, DecodeError>(
            parsed_reply(bytes@),
        ),
        bytes@.len() < ICMP_HEADER_LEN ==> r == Err::<EchoReply, DecodeError>(
            DecodeError::TooShort,
        ),
{
    if bytes.len() < ICMP_HEADER_LEN {
        return Err(DecodeError::TooShort);
    }
    Ok(
        EchoReply {
            icmp_type: bytes[0],
            code: bytes[1],
            checksum: (bytes[2] as u16) * 256 + (bytes[3] as u16),
            identifier: (bytes[4] as u16) * 256 + (bytes[5] as u16),
            sequence: (bytes[6] as u16) * 256 + (bytes[7] as u16),
        },
    )
}

/// Law: the encoder's checksum survives a round trip. Re-computing the
/// internet checksum of an encoded request over its bytes with the
/// checksum field zeroed yields exactly the checksum field stored at
/// bytes 2 and 3.
pub proof fn lemma_checksum_round_trip(identifier: u16, sequence: u16)
    ensures
        icmp_checksum(
            echo_request_bytes(identifier, sequence).update(2, 0u8).update(3, 0u8),
        ) == be16_at(echo_request_bytes(identifier, sequence), 2),
{
    let zeroed = echo_request_zero_checksum(identifier, sequence);
    let encoded = echo_request_bytes(identifier, sequence);
    assert(encoded.update(2, 0u8).update(3, 0u8) =~= zeroed);
    lemma_word_sum_nonneg(zeroed, word_count(zeroed));
    lemma_fold_carries_bounds(word_sum(zeroed, word_count(zeroed)));
}

/// Law: encode then decode is the identity on the meaningful fields.
/// Decoding the buffer an encoder produced reads back the echo-request
/// type, the echo code, and the identifier and sequence that were
/// encoded.
pub proof fn lemma_encode_decode_round_trip(identifier: u16, sequence: u16)
    ensures
        parsed_reply(echo_request_bytes(identifier, sequence)).icmp_type
            == ICMP_TYPE_ECHO_REQUEST,
        parsed_reply(echo_request_bytes(identifier, sequence)).code == ICMP_CODE_NO_CODE,
        parsed_reply(echo_request_bytes(identifier, sequence)).identifier == identifier,
        parsed_reply(echo_request_bytes(identifier, sequence)).sequence == sequence,
{
}

} // verus!
