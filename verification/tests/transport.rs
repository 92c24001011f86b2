use ping::packet::{encode_message, EchoKind};
use ping::transport::{
    classify_receive, classify_send, parse_ipv4_frame, IoFailure, Ipv4Frame, RecvError,
    ResidualBuffer, SendError,
};

fn ipv4_packet(ttl: u8, source: [u8; 4], options: usize, payload: &[u8]) -> Vec<u8> {
    let header_len = 20 + 4 * options;
    let total_len = header_len + payload.len();
    let mut bytes = vec![0u8; header_len];
    bytes[0] = 0x40 | (header_len / 4) as u8;
    bytes[2] = (total_len >> 8) as u8;
    bytes[3] = (total_len & 0xff) as u8;
    bytes[8] = ttl;
    bytes[9] = 1;
    bytes[12..16].copy_from_slice(&source);
    bytes[16..20].copy_from_slice(&[10, 0, 0, 1]);
    bytes.extend_from_slice(payload);
    bytes
}

#[test]
fn send_success_is_ok() {
    assert_eq!(classify_send(None), Ok(()));
}

#[test]
fn unreachable_is_transient() {
    assert_eq!(classify_send(Some(IoFailure::NetworkUnreachable)), Err(SendError::Transient));
    assert_eq!(classify_send(Some(IoFailure::HostUnreachable)), Err(SendError::Transient));
}

#[test]
fn permission_denied_is_forbidden() {
    assert_eq!(classify_send(Some(IoFailure::PermissionDenied)), Err(SendError::Forbidden));
}

#[test]
fn other_send_failures_are_fatal() {
    assert_eq!(classify_send(Some(IoFailure::Interrupted)), Err(SendError::Fatal));
    assert_eq!(classify_send(Some(IoFailure::TimedOut)), Err(SendError::Fatal));
    assert_eq!(classify_send(Some(IoFailure::Other)), Err(SendError::Fatal));
}

#[test]
fn interruption_is_told_apart_on_receive() {
    assert_eq!(classify_receive(IoFailure::Interrupted), RecvError::Interrupted);
    for failure in [
        IoFailure::NetworkUnreachable,
        IoFailure::HostUnreachable,
        IoFailure::PermissionDenied,
        IoFailure::TimedOut,
        IoFailure::Other,
    ] {
        assert_eq!(classify_receive(failure), RecvError::Fatal);
    }
}

#[test]
fn frame_of_a_plain_packet() {
    let packet = ipv4_packet(57, [192, 168, 1, 9], 0, &[1, 2, 3, 4, 5]);
    assert_eq!(
        parse_ipv4_frame(&packet),
        Some(Ipv4Frame { header_len: 20, total_len: 25, ttl: 57, source: 0xc0a8_0109 })
    );
}

#[test]
fn frame_of_a_packet_with_options() {
    let packet = ipv4_packet(1, [255, 254, 253, 252], 10, &[9; 300]);
    assert_eq!(
        parse_ipv4_frame(&packet),
        Some(Ipv4Frame { header_len: 60, total_len: 360, ttl: 1, source: 0xfffe_fdfc })
    );
}

#[test]
fn frame_ignores_what_follows_the_packet() {
    let mut bytes = ipv4_packet(64, [127, 0, 0, 1], 0, &[7; 8]);
    bytes.extend_from_slice(&[0xee; 11]);
    assert_eq!(parse_ipv4_frame(&bytes).unwrap().total_len, 28);
}

#[test]
fn frame_needs_twenty_bytes() {
    let packet = ipv4_packet(64, [127, 0, 0, 1], 0, &[]);
    assert!(parse_ipv4_frame(&packet).is_some());
    assert_eq!(parse_ipv4_frame(&packet[..19]), None);
    assert_eq!(parse_ipv4_frame(&[]), None);
}

#[test]
fn frame_needs_version_four() {
    let mut packet = ipv4_packet(64, [127, 0, 0, 1], 0, &[0; 8]);
    packet[0] = 0x65;
    assert_eq!(parse_ipv4_frame(&packet), None);
}

#[test]
fn frame_needs_five_header_words() {
    let mut packet = ipv4_packet(64, [127, 0, 0, 1], 0, &[0; 8]);
    packet[0] = 0x44;
    assert_eq!(parse_ipv4_frame(&packet), None);
}

#[test]
fn frame_needs_a_total_length_that_covers_the_header() {
    let mut packet = ipv4_packet(64, [127, 0, 0, 1], 1, &[0; 8]);
    packet[2] = 0;
    packet[3] = 23;
    assert_eq!(parse_ipv4_frame(&packet), None);
    packet[3] = 24;
    assert_eq!(parse_ipv4_frame(&packet).unwrap().total_len, 24);
}

#[test]
fn frame_needs_the_whole_packet() {
    let packet = ipv4_packet(64, [127, 0, 0, 1], 0, &[0; 8]);
    assert_eq!(parse_ipv4_frame(&packet[..27]), None);
}

#[test]
fn buffer_starts_empty() {
    let mut buffer = ResidualBuffer::new();
    assert!(buffer.is_empty());
    assert_eq!(buffer.len(), 0);
    assert!(buffer.next_datagram().is_none());
    assert!(buffer.is_empty());
}

#[test]
fn buffer_hands_out_one_datagram_at_a_time() {
    let first = encode_message(EchoKind::Reply, 1, 2, 3);
    let second = encode_message(EchoKind::Reply, 4, 5, 0);
    let mut received = ipv4_packet(64, [10, 0, 0, 2], 0, &first);
    received.extend_from_slice(&ipv4_packet(63, [10, 0, 0, 3], 2, &second));
    let mut buffer = ResidualBuffer::new();
    buffer.extend(&received);
    assert_eq!(buffer.len(), 31 + 36);

    let raw = buffer.next_datagram().unwrap();
    assert_eq!(raw.payload, first);
    assert_eq!(raw.ttl, 64);
    assert_eq!(raw.source, 0x0a00_0002);
    assert_eq!(buffer.len(), 36);

    let raw = buffer.next_datagram().unwrap();
    assert_eq!(raw.payload, second);
    assert_eq!(raw.ttl, 63);
    assert_eq!(raw.source, 0x0a00_0003);
    assert!(buffer.is_empty());
    assert!(buffer.next_datagram().is_none());
}

#[test]
fn buffer_appends_behind_what_is_pending() {
    let first = ipv4_packet(64, [1, 1, 1, 1], 0, &[1, 2, 3]);
    let second = ipv4_packet(64, [2, 2, 2, 2], 0, &[4, 5]);
    let mut buffer = ResidualBuffer::new();
    buffer.extend(&first);
    buffer.extend(&second[..10]);
    buffer.extend(&second[10..]);
    assert_eq!(buffer.len(), 45);
    assert_eq!(buffer.next_datagram().unwrap().payload, vec![1, 2, 3]);
    assert_eq!(buffer.next_datagram().unwrap().payload, vec![4, 5]);
    assert!(buffer.is_empty());
}

#[test]
fn buffer_is_reused_after_it_ran_empty() {
    let packet = ipv4_packet(64, [1, 1, 1, 1], 0, &[8; 4]);
    let mut buffer = ResidualBuffer::new();
    for _ in 0..3 {
        buffer.extend(&packet);
        assert_eq!(buffer.len(), 24);
        assert_eq!(buffer.next_datagram().unwrap().payload, vec![8; 4]);
        assert!(buffer.is_empty());
    }
}

#[test]
fn buffer_drops_bytes_that_cannot_be_framed() {
    let mut received = ipv4_packet(64, [1, 1, 1, 1], 0, &[1]);
    received.extend_from_slice(&[0x60, 1, 2, 3, 4, 5, 6, 7, 8, 9, 10, 11, 12, 13, 14, 15, 16, 17, 18, 19, 20]);
    received.extend_from_slice(&ipv4_packet(64, [2, 2, 2, 2], 0, &[2]));
    let mut buffer = ResidualBuffer::new();
    buffer.extend(&received);
    assert_eq!(buffer.next_datagram().unwrap().payload, vec![1]);
    assert!(!buffer.is_empty());
    assert!(buffer.next_datagram().is_none());
    assert!(buffer.is_empty());
}

#[test]
fn buffer_drops_a_truncated_packet() {
    let packet = ipv4_packet(64, [1, 1, 1, 1], 0, &[1, 2, 3, 4]);
    let mut buffer = ResidualBuffer::new();
    buffer.extend(&packet[..22]);
    assert!(buffer.next_datagram().is_none());
    assert!(buffer.is_empty());
}

#[test]
fn datagram_with_an_empty_payload() {
    let mut buffer = ResidualBuffer::new();
    buffer.extend(&ipv4_packet(9, [3, 3, 3, 3], 0, &[]));
    let raw = buffer.next_datagram().unwrap();
    assert!(raw.payload.is_empty());
    assert_eq!(raw.ttl, 9);
    assert!(buffer.is_empty());
}
