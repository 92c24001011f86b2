//! What the engine needs to know of the network socket: how a failed call is
//! classified, who a datagram came from, and how the bytes of one receive are
//! cut into datagrams when the socket delivers whole network-layer packets.

use crate::packet::be16;
use vstd::prelude::*;
use vstd::slice::slice_subrange;

verus! {

/// The conditions of a failed socket call that the engine tells apart.
#[derive(Clone, Copy, Debug, PartialEq, Eq, Structural)]
pub enum IoFailure {
    /// A signal arrived while the call was blocked.
    Interrupted,
    /// No route to the destination network.
    NetworkUnreachable,
    /// No route to the destination host.
    HostUnreachable,
    /// The operation is not permitted, as for a broadcast that was not asked for.
    PermissionDenied,
    /// The wait for a datagram ran out.
    TimedOut,
    /// Anything else.
    Other,
}

/// How a failed send is treated.
#[derive(Clone, Copy, Debug, PartialEq, Eq, Structural)]
pub enum SendError {
    /// The route is momentarily not ready; the probe still counts as sent.
    Transient,
    /// Sending is not permitted.
    Forbidden,
    /// The session cannot go on.
    Fatal,
}

/// How a failed receive is treated.
#[derive(Clone, Copy, Debug, PartialEq, Eq, Structural)]
pub enum RecvError {
    /// A signal woke the call: look at the flags and receive again.
    Interrupted,
    /// The session cannot go on.
    Fatal,
}

/// Source address of a datagram: the 32 bits of an IPv4 address or the 128
/// bits of an IPv6 address, most significant byte first.
#[derive(Clone, Copy, Debug, PartialEq, Eq, Structural)]
pub enum PeerAddress {
    V4(u32),
    V6(u128),
}

/// How a failed send is classified: an unreachable network or host is
/// transient, a denied permission forbidden, anything else fatal.
pub open spec fn send_error_of(failure: IoFailure) -> SendError {
    match failure {
        IoFailure::NetworkUnreachable | IoFailure::HostUnreachable => SendError::Transient,
        IoFailure::PermissionDenied => SendError::Forbidden,
        _ => SendError::Fatal,
    }
}

/// How a failed receive is classified: an interruption is told apart,
/// anything else is fatal.
pub open spec fn recv_error_of(failure: IoFailure) -> RecvError {
    match failure {
        IoFailure::Interrupted => RecvError::Interrupted,
        _ => RecvError::Fatal,
    }
}

/// The result of a send whose outcome was `outcome`, `None` standing for
/// success.
pub open spec fn send_result_of(outcome: Option<IoFailure>) -> Result<(), SendError> {
    match outcome {
        None => Ok(()),
        Some(failure) => Err(send_error_of(failure)),
    }
}

/// Classifies the outcome of a send: `None` stands for success.
pub fn classify_send(outcome: Option<IoFailure>) -> (result: Result<(), SendError>)
    ensures
        result == send_result_of(outcome),
{
    match outcome {
        None => Ok(()),
        Some(IoFailure::NetworkUnreachable) => Err(SendError::Transient),
        Some(IoFailure::HostUnreachable) => Err(SendError::Transient),
        Some(IoFailure::PermissionDenied) => Err(SendError::Forbidden),
        Some(_) => Err(SendError::Fatal),
    }
}

/// Classifies a failed receive.
pub fn classify_receive(failure: IoFailure) -> (kind: RecvError)
    ensures
        kind == recv_error_of(failure),
{
    match failure {
        IoFailure::Interrupted => RecvError::Interrupted,
        _ => RecvError::Fatal,
    }
}

/// Shortest IPv4 header.
pub const IPV4_MIN_HEADER: usize = 20;

/// The fields of an IPv4 header that frame one packet and describe its sender.
#[derive(Clone, Copy, Debug, PartialEq, Eq, Structural)]
pub struct Ipv4Frame {
    /// Length of the header: where the payload begins.
    pub header_len: usize,
    /// Length of the whole packet: where the next one begins.
    pub total_len: usize,
    /// Remaining hop count.
    pub ttl: u8,
    /// Source address.
    pub source: u32,
}

/// The 32-bit number that four bytes spell in network order.
pub open spec fn be32(b0: u8, b1: u8, b2: u8, b3: u8) -> u32 {
    (b0 * 0x100_0000 + b1 * 0x1_0000 + b2 * 0x100 + b3) as u32
}

/// The frame of the IPv4 packet at the start of `bytes`: version 4, a header
/// of at least five words, and a total length that covers the header and lies
/// within `bytes`.
pub open spec fn ipv4_frame(bytes: Seq<u8>) -> Option<Ipv4Frame> {
    if bytes.len() >= IPV4_MIN_HEADER && bytes[0] / 16 == 4 && bytes[0] % 16 >= 5 && (bytes[0]
        % 16) * 4 <= be16(bytes[2], bytes[3]) <= bytes.len() {
        Some(
            Ipv4Frame {
                header_len: ((bytes[0] % 16) * 4) as usize,
                total_len: be16(bytes[2], bytes[3]) as usize,
                ttl: bytes[8],
                source: be32(bytes[12], bytes[13], bytes[14], bytes[15]),
            },
        )
    } else {
        None
    }
}

/// Reads the frame of the IPv4 packet at the start of `bytes`.
pub fn parse_ipv4_frame(bytes: &[u8]) -> (frame: Option<Ipv4Frame>)
    ensures
        frame == ipv4_frame(bytes@),
{
    if bytes.len() < IPV4_MIN_HEADER {
        return None;
    }
    let version = bytes[0] / 16;
    let words = bytes[0] % 16;
    if version != 4 || words < 5 {
        return None;
    }
    let header_len: usize = words as usize * 4;
    let total_len: usize = bytes[2] as usize * 256 + bytes[3] as usize;
    if total_len < header_len || total_len > bytes.len() {
        return None;
    }
    let source: u32 = bytes[12] as u32 * 0x100_0000 + bytes[13] as u32 * 0x1_0000 + bytes[14] as u32
        * 0x100 + bytes[15] as u32;
    Some(Ipv4Frame { header_len, total_len, ttl: bytes[8], source })
}

/// One datagram cut out of a raw receive, with what its network-layer header
/// says of the sender.
pub struct RawDatagram {
    pub payload: Vec<u8>,
    pub ttl: u8,
    pub source: u32,
}

/// What `next_datagram` hands out for the pending bytes `pending`.
pub open spec fn first_datagram(pending: Seq<u8>) -> Option<(Seq<u8>, u8, u32)> {
    match ipv4_frame(pending) {
        Some(frame) => Some(
            (
                pending.subrange(frame.header_len as int, frame.total_len as int),
                frame.ttl,
                frame.source,
            ),
        ),
        None => None,
    }
}

/// What stays pending after `next_datagram`: the bytes behind the first
/// packet, or nothing where no packet stands at the front.
pub open spec fn rest_after_first(pending: Seq<u8>) -> Seq<u8> {
    match ipv4_frame(pending) {
        Some(frame) => pending.skip(frame.total_len as int),
        None => Seq::empty(),
    }
}

/// Bytes received and not yet consumed. One receive can yield more than one
/// packet; the buffer hands them out one at a time and keeps the rest, moving
/// a cursor rather than the bytes.
pub struct ResidualBuffer {
    bytes: Vec<u8>,
    cursor: usize,
}

impl View for ResidualBuffer {
    type V = Seq<u8>;

    /// The pending bytes, oldest first.
    closed spec fn view(&self) -> Seq<u8> {
        self.bytes@.skip(self.cursor as int)
    }
}

impl ResidualBuffer {
    #[verifier::type_invariant]
    spec fn consistent(self) -> bool {
        self.cursor <= self.bytes.len()
    }

    /// A buffer with nothing pending.
    pub fn new() -> (buffer: Self)
        ensures
            buffer@ == Seq::<u8>::empty(),
    {
        ResidualBuffer { bytes: Vec::new(), cursor: 0 }
    }

    /// Number of pending bytes.
    pub fn len(&self) -> (count: usize)
        ensures
            count == self@.len(),
    {
        proof {
            use_type_invariant(self);
        }
        self.bytes.len() - self.cursor
    }

    /// Tells whether nothing is pending.
    pub fn is_empty(&self) -> (empty: bool)
        ensures
            empty == (self@.len() == 0),
    {
        self.len() == 0
    }

    /// Appends the bytes of one receive behind those still pending.
    pub fn extend(&mut self, received: &[u8])
        ensures
            final(self)@ == old(self)@ + received@,
    {
        proof {
            use_type_invariant(&*self);
        }
        let mut taken = ResidualBuffer::new();
        core::mem::swap(self, &mut taken);
        let ResidualBuffer { mut bytes, mut cursor } = taken;
        if cursor == bytes.len() {
            bytes.clear();
            cursor = 0;
        }
        let ghost before = bytes@;
        assert(before.skip(cursor as int) =~= old(self)@);
        let mut copied: usize = 0;
        while copied < received.len()
            invariant
                copied <= received.len(),
                cursor <= before.len(),
                bytes@ == before + received@.take(copied as int),
            decreases received.len() - copied,
        {
            bytes.push(received[copied]);
            copied = copied + 1;
            assert(bytes@ =~= before + received@.take(copied as int));
        }
        assert(received@.take(copied as int) =~= received@);
        assert((before + received@).skip(cursor as int) =~= before.skip(cursor as int)
            + received@);
        *self = ResidualBuffer { bytes, cursor };
    }

    /// Takes the first pending packet, if a well-formed one stands at the
    /// front, and keeps what follows it. Bytes that do not begin with a whole
    /// packet cannot be framed and are dropped.
    pub fn next_datagram(&mut self) -> (datagram: Option<RawDatagram>)
        ensures
            final(self)@ == rest_after_first(old(self)@),
            match datagram {
                Some(raw) => first_datagram(old(self)@) == Some((raw.payload@, raw.ttl, raw.source)),
                None => first_datagram(old(self)@).is_none(),
            },
    {
        proof {
            use_type_invariant(&*self);
        }
        let pending = slice_subrange(self.bytes.as_slice(), self.cursor, self.bytes.len());
        assert(pending@ =~= self@);
        match parse_ipv4_frame(pending) {
            Some(frame) => {
                let body = slice_subrange(pending, frame.header_len, frame.total_len);
                let mut payload: Vec<u8> = Vec::with_capacity(body.len());
                let mut copied: usize = 0;
                while copied < body.len()
                    invariant
                        copied <= body.len(),
                        payload@ == body@.take(copied as int),
                    decreases body.len() - copied,
                {
                    payload.push(body[copied]);
                    copied = copied + 1;
                    assert(payload@ =~= body@.take(copied as int));
                }
                assert(body@.take(copied as int) =~= body@);
                let cursor = self.cursor + frame.total_len;
                assert(self.bytes@.skip(cursor as int) =~= self@.skip(frame.total_len as int));
                let mut taken = ResidualBuffer::new();
                core::mem::swap(self, &mut taken);
                *self = ResidualBuffer { bytes: taken.bytes, cursor };
                Some(RawDatagram { payload, ttl: frame.ttl, source: frame.source })
            },
            None => {
                *self = ResidualBuffer { bytes: Vec::new(), cursor: 0 };
                None
            },
        }
    }
}

/// Packets received together come out one by one and whole: where a
/// well-formed packet is followed by further bytes, the first datagram handed
/// out is that of the packet alone, and exactly the further bytes stay
/// pending.
pub proof fn law_packets_come_out_in_order(packet: Seq<u8>, rest: Seq<u8>)
    requires
        ipv4_frame(packet) matches Some(frame) && frame.total_len == packet.len(),
    ensures
        first_datagram(packet + rest) == first_datagram(packet),
        rest_after_first(packet + rest) == rest,
        rest_after_first(packet) == Seq::<u8>::empty(),
{
    let joined = packet + rest;
    let frame = ipv4_frame(packet)->0;
    assert(ipv4_frame(joined) == Some(frame));
    assert(joined.subrange(frame.header_len as int, frame.total_len as int) =~= packet.subrange(
        frame.header_len as int,
        frame.total_len as int,
    ));
    assert(joined.skip(frame.total_len as int) =~= rest);
    assert(packet.skip(frame.total_len as int) =~= Seq::<u8>::empty());
}

} // verus!
