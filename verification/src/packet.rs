//! Echo datagrams: an eight-byte header (type, code, checksum, identifier,
//! sequence number, all big-endian) followed by filler.

use crate::checksum::{
    byte_weight, checksum, checksum_valid, internet_checksum, lemma_fold16_range,
    lemma_valid_iff_multiple, lemma_word_sum_concat, lemma_word_sum_push, lemma_word_sum_update,
    lemma_word_sum_zeros, verify, word_sum,
};
use vstd::arithmetic::div_mod::{lemma_fundamental_div_mod, lemma_mod_multiples_vanish};
use vstd::prelude::*;

verus! {

/// Message type of an echo request.
pub const ECHO_REQUEST: u8 = 8;

/// Message type of an echo reply.
pub const ECHO_REPLY: u8 = 0;

/// Length of the echo header.
pub const HEADER_SIZE: usize = 8;

/// Largest payload that fits a datagram: 65535 bytes less a 20-byte network
/// header and the echo header.
pub const MAX_PAYLOAD_SIZE: usize = 65507;

/// The two directions of the echo exchange.
#[derive(Clone, Copy, Debug, PartialEq, Eq, Structural)]
pub enum EchoKind {
    Request,
    Reply,
}

/// What a valid echo reply carries.
#[derive(Clone, Copy, Debug, PartialEq, Eq, Structural)]
pub struct EchoReply {
    pub sequence: u16,
    pub identifier: u16,
    pub payload_size: usize,
}

/// The more significant byte of `word`.
pub open spec fn high_byte(word: u16) -> u8 {
    (word / 256) as u8
}

/// The less significant byte of `word`.
pub open spec fn low_byte(word: u16) -> u8 {
    (word % 256) as u8
}

/// The 16-bit number that two bytes spell in network order.
pub open spec fn be16(high: u8, low: u8) -> u16 {
    (high * 256 + low) as u16
}

/// The message type that stands for `kind` on the wire.
pub open spec fn type_code(kind: EchoKind) -> u8 {
    match kind {
        EchoKind::Request => ECHO_REQUEST,
        EchoKind::Reply => ECHO_REPLY,
    }
}

/// The eight header bytes, code zero.
pub open spec fn header(kind: EchoKind, checksum: u16, identifier: u16, sequence: u16) -> Seq<u8> {
    seq![
        type_code(kind),
        0u8,
        high_byte(checksum),
        low_byte(checksum),
        high_byte(identifier),
        low_byte(identifier),
        high_byte(sequence),
        low_byte(sequence),
    ]
}

/// The payload of a probe: `payload_size` zero bytes.
pub open spec fn filler(payload_size: nat) -> Seq<u8> {
    Seq::new(payload_size, |i: int| 0u8)
}

/// Header and filler with a given value in the checksum field.
pub open spec fn datagram(
    kind: EchoKind,
    checksum: u16,
    identifier: u16,
    sequence: u16,
    payload_size: nat,
) -> Seq<u8> {
    header(kind, checksum, identifier, sequence) + filler(payload_size)
}

/// The encoded message: its checksum field holds the checksum of the same
/// bytes with that field zeroed.
pub open spec fn encoded(kind: EchoKind, sequence: u16, identifier: u16, payload_size: nat) -> Seq<
    u8,
> {
    datagram(
        kind,
        internet_checksum(datagram(kind, 0, identifier, sequence, payload_size)),
        identifier,
        sequence,
        payload_size,
    )
}

/// The checksum field of a datagram of at least four bytes.
pub open spec fn stored_checksum(bytes: Seq<u8>) -> u16 {
    be16(bytes[2], bytes[3])
}

/// `bytes` with `checksum` written into the checksum field.
pub open spec fn with_checksum(bytes: Seq<u8>, checksum: u16) -> Seq<u8> {
    bytes.update(2, high_byte(checksum)).update(3, low_byte(checksum))
}

/// `bytes` with bit `bit` of the byte at `index` inverted.
pub open spec fn with_bit_flipped(bytes: Seq<u8>, index: int, bit: u8) -> Seq<u8> {
    bytes.update(index, bytes[index] ^ (1u8 << bit))
}

/// What `decode` makes of `bytes`: a reply when they are long enough, sum to
/// one's-complement zero and are typed as an echo reply; nothing otherwise.
pub open spec fn decoded(bytes: Seq<u8>) -> Option<EchoReply> {
    if bytes.len() >= HEADER_SIZE && checksum_valid(bytes) && bytes[0] == ECHO_REPLY {
        Some(
            EchoReply {
                sequence: be16(bytes[6], bytes[7]),
                identifier: be16(bytes[4], bytes[5]),
                payload_size: (bytes.len() - HEADER_SIZE) as usize,
            },
        )
    } else {
        None
    }
}

/// The two bytes of `word`, the more significant first.
fn split(word: u16) -> (halves: (u8, u8))
    ensures
        halves.0 == high_byte(word),
        halves.1 == low_byte(word),
        be16(halves.0, halves.1) == word,
{
    ((word / 256) as u8, (word % 256) as u8)
}

/// The number that two bytes spell in network order.
fn join(high: u8, low: u8) -> (word: u16)
    ensures
        word == be16(high, low),
{
    high as u16 * 256 + low as u16
}

/// Builds an echo message of either kind with a zero filler payload.
pub fn encode_message(kind: EchoKind, sequence: u16, identifier: u16, payload_size: usize) -> (bytes:
    Vec<u8>)
    requires
        payload_size <= MAX_PAYLOAD_SIZE,
    ensures
        bytes@ == encoded(kind, sequence, identifier, payload_size as nat),
{
    let code = match kind {
        EchoKind::Request => ECHO_REQUEST,
        EchoKind::Reply => ECHO_REPLY,
    };
    let (id_high, id_low) = split(identifier);
    let (seq_high, seq_low) = split(sequence);
    let mut bytes: Vec<u8> = Vec::with_capacity(HEADER_SIZE + payload_size);
    bytes.push(code);
    bytes.push(0);
    bytes.push(0);
    bytes.push(0);
    bytes.push(id_high);
    bytes.push(id_low);
    bytes.push(seq_high);
    bytes.push(seq_low);
    assert(bytes@ =~= datagram(kind, 0, identifier, sequence, 0));
    let mut filled: usize = 0;
    while filled < payload_size
        invariant
            filled <= payload_size,
            bytes@ == datagram(kind, 0, identifier, sequence, filled as nat),
        decreases payload_size - filled,
    {
        bytes.push(0);
        filled = filled + 1;
        assert(bytes@ =~= datagram(kind, 0, identifier, sequence, filled as nat));
    }
    let sum = checksum(bytes.as_slice());
    let (sum_high, sum_low) = split(sum);
    bytes.set(2, sum_high);
    bytes.set(3, sum_low);
    assert(bytes@ =~= datagram(kind, sum, identifier, sequence, payload_size as nat));
    bytes
}

/// Builds the echo request for probe `sequence`.
///
/// The time-to-live is a field of the network-layer header, which the
/// transport sets; the echo datagram is the same for every value of it.
pub fn encode(sequence: u16, identifier: u16, payload_size: usize, ttl: u8) -> (bytes: Vec<u8>)
    requires
        payload_size <= MAX_PAYLOAD_SIZE,
    ensures
        bytes@ == encoded(EchoKind::Request, sequence, identifier, payload_size as nat),
{
    let _ = ttl;
    encode_message(EchoKind::Request, sequence, identifier, payload_size)
}

/// Reads an echo reply, or reports no match for anything else.
pub fn decode(bytes: &[u8]) -> (reply: Option<EchoReply>)
    ensures
        reply == decoded(bytes@),
{
    if bytes.len() < HEADER_SIZE {
        return None;
    }
    if !verify(bytes) {
        return None;
    }
    if bytes[0] != ECHO_REPLY {
        return None;
    }
    Some(
        EchoReply {
            sequence: join(bytes[6], bytes[7]),
            identifier: join(bytes[4], bytes[5]),
            payload_size: bytes.len() - HEADER_SIZE,
        },
    )
}

/// The word sum of a datagram is the sum of its header words.
pub proof fn lemma_datagram_sum(
    kind: EchoKind,
    checksum: u16,
    identifier: u16,
    sequence: u16,
    payload_size: nat,
)
    ensures
        word_sum(datagram(kind, checksum, identifier, sequence, payload_size)) == 256 * type_code(
            kind,
        ) + checksum + identifier + sequence,
{
    let head = header(kind, checksum, identifier, sequence);
    lemma_word_sum_concat(head, filler(payload_size));
    lemma_word_sum_zeros(filler(payload_size));
    let h0 = Seq::<u8>::empty();
    let h1 = h0.push(type_code(kind));
    let h2 = h1.push(0u8);
    let h3 = h2.push(high_byte(checksum));
    let h4 = h3.push(low_byte(checksum));
    let h5 = h4.push(high_byte(identifier));
    let h6 = h5.push(low_byte(identifier));
    let h7 = h6.push(high_byte(sequence));
    let h8 = h7.push(low_byte(sequence));
    lemma_word_sum_push(h0, type_code(kind));
    lemma_word_sum_push(h1, 0u8);
    lemma_word_sum_push(h2, high_byte(checksum));
    lemma_word_sum_push(h3, low_byte(checksum));
    lemma_word_sum_push(h4, high_byte(identifier));
    lemma_word_sum_push(h5, low_byte(identifier));
    lemma_word_sum_push(h6, high_byte(sequence));
    lemma_word_sum_push(h7, low_byte(sequence));
    assert(h8 =~= head);
}

/// Every encoded message has the stated length and fields and sums to
/// one's-complement zero, whatever its kind, sequence number, identifier and
/// payload size.
pub proof fn law_encoded_is_intact(
    kind: EchoKind,
    sequence: u16,
    identifier: u16,
    payload_size: nat,
)
    ensures
        ({
            let bytes = encoded(kind, sequence, identifier, payload_size);
            &&& bytes.len() == HEADER_SIZE + payload_size
            &&& checksum_valid(bytes)
            &&& bytes[0] == type_code(kind)
            &&& bytes[1] == 0
            &&& be16(bytes[4], bytes[5]) == identifier
            &&& be16(bytes[6], bytes[7]) == sequence
            &&& forall|i: int| HEADER_SIZE <= i < bytes.len() ==> bytes[i] == 0
        }),
{
    let blank = datagram(kind, 0, identifier, sequence, payload_size);
    let sum = internet_checksum(blank);
    let bytes = encoded(kind, sequence, identifier, payload_size);
    lemma_datagram_sum(kind, 0, identifier, sequence, payload_size);
    lemma_datagram_sum(kind, sum, identifier, sequence, payload_size);
    let base = word_sum(blank);
    lemma_fold16_range(base);
    assert(word_sum(bytes) == base + sum);
    if base > 0 {
        let t = (base - 1) as int;
        lemma_fundamental_div_mod(t, 65535);
        assert(base + sum == 65535 * (t / 65535 + 1));
        lemma_mod_multiples_vanish(t / 65535 + 1, 0, 65535);
    }
    lemma_valid_iff_multiple(bytes);
}

/// The echo reply to any probe decodes to the probe's sequence number,
/// identifier and payload size, for every payload size up to the largest a
/// datagram can hold.
pub proof fn law_reply_round_trip(sequence: u16, identifier: u16, payload_size: nat)
    requires
        payload_size <= MAX_PAYLOAD_SIZE,
    ensures
        decoded(encoded(EchoKind::Reply, sequence, identifier, payload_size)) == Some(
            EchoReply { sequence, identifier, payload_size: payload_size as usize },
        ),
{
    law_encoded_is_intact(EchoKind::Reply, sequence, identifier, payload_size);
}

/// A probe is never taken for a reply: decoding an encoded request reports
/// no match, though its checksum is valid.
pub proof fn law_request_is_no_reply(sequence: u16, identifier: u16, payload_size: nat)
    ensures
        checksum_valid(encoded(EchoKind::Request, sequence, identifier, payload_size)),
        decoded(encoded(EchoKind::Request, sequence, identifier, payload_size)).is_none(),
{
    law_encoded_is_intact(EchoKind::Request, sequence, identifier, payload_size);
}

/// Inverting any single bit of a datagram whose checksum is valid makes the
/// checksum invalid, so that `decode` reports no match.
pub proof fn law_bit_flip_is_detected(bytes: Seq<u8>, index: int, bit: u8)
    requires
        checksum_valid(bytes),
        0 <= index < bytes.len(),
        bit < 8,
    ensures
        !checksum_valid(with_bit_flipped(bytes, index, bit)),
        decoded(with_bit_flipped(bytes, index, bit)).is_none(),
{
    let before = bytes[index];
    let mask = 1u8 << bit;
    let after = before ^ mask;
    assert(bit < 8 ==> 1 <= (1u8 << bit) <= 128 && ((before ^ (1u8 << bit)) == before + (1u8
        << bit) || (before ^ (1u8 << bit)) == before - (1u8 << bit))) by (bit_vector);
    let flipped = with_bit_flipped(bytes, index, bit);
    lemma_word_sum_update(bytes, index, after);
    lemma_valid_iff_multiple(bytes);
    lemma_valid_iff_multiple(flipped);
    let total = word_sum(bytes) as int;
    let weight = byte_weight(index) as int;
    let delta = weight * mask;
    assert(1 <= delta <= 32768);
    lemma_fundamental_div_mod(total, 65535);
    let q = total / 65535;
    if after == before + mask {
        assert(word_sum(flipped) == 65535 * q + delta);
        lemma_mod_multiples_vanish(q, delta, 65535);
    } else {
        assert(word_sum(flipped) == 65535 * (q - 1) + (65535 - delta));
        lemma_mod_multiples_vanish(q - 1, 65535 - delta, 65535);
    }
}

/// Writing any other value into the checksum field of a datagram whose
/// checksum is valid makes it invalid, so that `decode` reports no match. The
/// two spellings of one's-complement zero, `0x0000` and `0xffff`, stand for
/// the same value and are the one exchange that goes unnoticed.
pub proof fn law_checksum_corruption_is_detected(bytes: Seq<u8>, forged: u16)
    requires
        bytes.len() >= 4,
        checksum_valid(bytes),
        forged != stored_checksum(bytes),
        !(forged == 0xffff && stored_checksum(bytes) == 0),
        !(forged == 0 && stored_checksum(bytes) == 0xffff),
    ensures
        !checksum_valid(with_checksum(bytes, forged)),
        decoded(with_checksum(bytes, forged)).is_none(),
{
    let stored = stored_checksum(bytes) as int;
    let half = bytes.update(2, high_byte(forged));
    let forgery = with_checksum(bytes, forged);
    lemma_word_sum_update(bytes, 2, high_byte(forged));
    lemma_word_sum_update(half, 3, low_byte(forged));
    lemma_valid_iff_multiple(bytes);
    lemma_valid_iff_multiple(forgery);
    let total = word_sum(bytes) as int;
    assert(word_sum(forgery) == total - stored + forged);
    lemma_fundamental_div_mod(total, 65535);
    let q = total / 65535;
    if forged > stored {
        let delta = forged - stored;
        lemma_mod_multiples_vanish(q, delta, 65535);
    } else {
        let delta = stored - forged;
        assert(word_sum(forgery) == 65535 * (q - 1) + (65535 - delta));
        lemma_mod_multiples_vanish(q - 1, 65535 - delta, 65535);
    }
}

/// With any single bit inverted, an encoded message of either kind no
/// longer passes the checksum and `decode` reports no match.
pub proof fn law_encoded_bit_flip_is_no_match(
    kind: EchoKind,
    sequence: u16,
    identifier: u16,
    payload_size: nat,
    index: int,
    bit: u8,
)
    requires
        0 <= index < HEADER_SIZE + payload_size,
        bit < 8,
    ensures
        !checksum_valid(
            with_bit_flipped(encoded(kind, sequence, identifier, payload_size), index, bit),
        ),
        decoded(
            with_bit_flipped(encoded(kind, sequence, identifier, payload_size), index, bit),
        ).is_none(),
{
    law_encoded_is_intact(kind, sequence, identifier, payload_size);
    law_bit_flip_is_detected(encoded(kind, sequence, identifier, payload_size), index, bit);
}

/// With any other value in its checksum field, an encoded message of either
/// kind no longer passes the checksum and `decode` reports no match. The one
/// forgery that passes is `0xffff` written over a checksum of `0x0000`, the
/// other spelling of the same one's-complement value.
pub proof fn law_encoded_forgery_is_no_match(
    kind: EchoKind,
    sequence: u16,
    identifier: u16,
    payload_size: nat,
    forged: u16,
)
    requires
        forged != stored_checksum(encoded(kind, sequence, identifier, payload_size)),
        !(forged == 0xffff && stored_checksum(encoded(kind, sequence, identifier, payload_size))
            == 0),
    ensures
        !checksum_valid(with_checksum(encoded(kind, sequence, identifier, payload_size), forged)),
        decoded(
            with_checksum(encoded(kind, sequence, identifier, payload_size), forged),
        ).is_none(),
{
    let bytes = encoded(kind, sequence, identifier, payload_size);
    let blank = datagram(kind, 0, identifier, sequence, payload_size);
    let stored = internet_checksum(blank);
    law_encoded_is_intact(kind, sequence, identifier, payload_size);
    assert(stored_checksum(bytes) == stored);
    if forged == 0 && stored == 0xffff {
        lemma_datagram_sum(kind, 0, identifier, sequence, payload_size);
        lemma_fold16_range(word_sum(blank));
        assert(word_sum(blank) == 0);
        assert(with_checksum(bytes, forged) =~= blank);
        lemma_valid_iff_multiple(blank);
    } else {
        law_checksum_corruption_is_detected(bytes, forged);
    }
}

} // verus!
