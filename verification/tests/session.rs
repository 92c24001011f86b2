use ping::engine::{
    Action, Event, Fault, Phase, PingContext, PingEngine, ReceivedReply, Report, Stage, MAX_REPLIES,
};
use ping::packet::{encode, encode_message, EchoKind, MAX_PAYLOAD_SIZE};
use ping::stats::RoundTripSummary;
use ping::timer::{TimerSchedule, TimerValue};
use ping::transport::{IoFailure, PeerAddress};

const SECOND: u64 = 1_000_000_000;
const MILLI: u64 = 1_000_000;
const IDENTIFIER: u16 = 0x1234;
const PEER: PeerAddress = PeerAddress::V4(0x7f00_0001);

fn context(count: Option<u16>, deadline: Option<u64>) -> PingContext {
    PingContext {
        count,
        interval: SECOND,
        deadline,
        timeout: 2 * SECOND,
        packet_size: 56,
        ttl: 64,
        dest: String::from("localhost"),
    }
}

fn message(sequence: u16, elapsed: u64) -> Event {
    Event::Message {
        bytes: encode_message(EchoKind::Reply, sequence, IDENTIFIER, 56),
        peer: PEER,
        ttl: 64,
        elapsed,
    }
}

fn reply(sequence: u16, arrival: u64, round_trip_ms: u64) -> Action {
    Action::Reply(ReceivedReply {
        sequence,
        payload_size: 56,
        peer: PEER,
        ttl: 64,
        arrival,
        round_trip_ms,
    })
}

fn polled(elapsed: u64) -> Event {
    Event::Polled { stop_requested: false, elapsed }
}

/// An engine that has sent its first probe and stands at the top of the loop.
fn probing(count: Option<u16>, deadline: Option<u64>) -> PingEngine {
    let mut engine = PingEngine::new(context(count, deadline), IDENTIFIER);
    assert_eq!(engine.step(Event::Start), Action::Resolve);
    assert_eq!(engine.step(Event::Resolved(Some(PEER))), Action::Arm { schedule: every_second() });
    assert_eq!(engine.step(Event::Done), Action::Send { sequence: 0 });
    assert_eq!(
        engine.step(Event::Sent(None)),
        Action::Announce { address: PEER, payload_size: 56 }
    );
    assert_eq!(engine.step(Event::Done), Action::Poll);
    engine
}

fn every_second() -> TimerSchedule {
    let second = TimerValue { seconds: 1, microseconds: 0 };
    TimerSchedule { initial: second, period: second }
}

/// An engine that is blocked in a receive, without having sent another probe.
fn receiving(count: Option<u16>, elapsed: u64) -> PingEngine {
    let mut engine = probing(count, None);
    assert_eq!(engine.step(polled(elapsed)), Action::TakeTimer);
    assert_eq!(engine.step(Event::Timer { fired: false }), Action::Receive { timeout: 2 * SECOND });
    engine
}

fn raw_packet(ttl: u8, source: [u8; 4], payload: &[u8]) -> Vec<u8> {
    let total_len = 20 + payload.len();
    let mut bytes = vec![0u8; 20];
    bytes[0] = 0x45;
    bytes[2] = (total_len >> 8) as u8;
    bytes[3] = (total_len & 0xff) as u8;
    bytes[8] = ttl;
    bytes[9] = 1;
    bytes[12..16].copy_from_slice(&source);
    bytes.extend_from_slice(payload);
    bytes
}

#[test]
fn context_validity() {
    assert!(context(None, None).is_valid());
    assert!(context(Some(1), Some(0)).is_valid());
    assert!(!context(Some(0), None).is_valid());
    let mut stalled = context(None, None);
    stalled.interval = 0;
    assert!(!stalled.is_valid());
    let mut large = context(None, None);
    large.packet_size = MAX_PAYLOAD_SIZE;
    assert!(large.is_valid());
    large.packet_size = MAX_PAYLOAD_SIZE + 1;
    assert!(!large.is_valid());
}

#[test]
fn new_engine_has_done_nothing() {
    let engine = PingEngine::new(context(Some(3), None), IDENTIFIER);
    assert_eq!(engine.stage(), Stage::Created);
    assert_eq!(engine.phase(), Phase::Init);
    assert_eq!(engine.transmitted(), 0);
    assert_eq!(engine.received(), 0);
    assert!(engine.has_headroom());
    assert_eq!(engine.context().count, Some(3));
    assert_eq!(engine.context().dest, "localhost");
}

#[test]
fn probe_is_the_encoded_request() {
    let engine = PingEngine::new(context(None, None), IDENTIFIER);
    assert_eq!(engine.probe(7), encode(7, IDENTIFIER, 56, 64));
    assert_eq!(engine.probe(7).len(), 64);
}

#[test]
fn init_walks_through_resolve_arm_send_announce() {
    let mut engine = PingEngine::new(context(None, None), IDENTIFIER);
    assert_eq!(engine.step(Event::Start), Action::Resolve);
    assert_eq!(engine.stage(), Stage::Resolving);
    assert_eq!(engine.step(Event::Resolved(Some(PEER))), Action::Arm { schedule: every_second() });
    assert_eq!(engine.stage(), Stage::Arming);
    assert_eq!(engine.step(Event::Done), Action::Send { sequence: 0 });
    assert_eq!(engine.stage(), Stage::FirstSend);
    assert_eq!(engine.transmitted(), 0);
    assert_eq!(
        engine.step(Event::Sent(None)),
        Action::Announce { address: PEER, payload_size: 56 }
    );
    assert_eq!(engine.stage(), Stage::Announcing);
    assert_eq!(engine.phase(), Phase::Init);
    assert_eq!(engine.transmitted(), 1);
    assert_eq!(engine.step(Event::Done), Action::Poll);
    assert_eq!(engine.stage(), Stage::Polling);
    assert_eq!(engine.phase(), Phase::Probing);
}

#[test]
fn unresolved_destination_ends_the_session() {
    let mut engine = PingEngine::new(context(None, None), IDENTIFIER);
    assert_eq!(engine.step(Event::Start), Action::Resolve);
    assert_eq!(engine.step(Event::Resolved(None)), Action::Finish(Some(Fault::Unresolved)));
    assert_eq!(engine.phase(), Phase::Done);
    assert_eq!(engine.step(Event::Start), Action::Finish(Some(Fault::Unresolved)));
}

#[test]
fn first_probe_forbidden_ends_without_summary() {
    let mut engine = PingEngine::new(context(None, None), IDENTIFIER);
    engine.step(Event::Start);
    engine.step(Event::Resolved(Some(PEER)));
    engine.step(Event::Done);
    assert_eq!(engine.step(Event::Sent(Some(IoFailure::PermissionDenied))), Action::Release);
    assert_eq!(engine.phase(), Phase::Draining);
    assert_eq!(engine.transmitted(), 0);
    assert_eq!(
        engine.step(Event::Released { elapsed: MILLI }),
        Action::Finish(Some(Fault::Forbidden))
    );
    assert_eq!(engine.phase(), Phase::Done);
}

#[test]
fn first_probe_fatal_reports_then_fails() {
    let mut engine = PingEngine::new(context(None, None), IDENTIFIER);
    engine.step(Event::Start);
    engine.step(Event::Resolved(Some(PEER)));
    engine.step(Event::Done);
    assert_eq!(engine.step(Event::Sent(Some(IoFailure::Other))), Action::Release);
    assert_eq!(
        engine.step(Event::Released { elapsed: 3 * MILLI }),
        Action::Summarize(Report {
            transmitted: 0,
            received: 0,
            loss_percentage: None,
            elapsed_ms: 3,
            round_trip: None,
        })
    );
    assert_eq!(engine.phase(), Phase::Reporting);
    assert_eq!(engine.step(Event::Done), Action::Finish(Some(Fault::Send(IoFailure::Other))));
}

#[test]
fn first_probe_unreachable_counts_as_sent() {
    let mut engine = PingEngine::new(context(None, None), IDENTIFIER);
    engine.step(Event::Start);
    engine.step(Event::Resolved(Some(PEER)));
    engine.step(Event::Done);
    assert_eq!(
        engine.step(Event::Sent(Some(IoFailure::NetworkUnreachable))),
        Action::Announce { address: PEER, payload_size: 56 }
    );
    assert_eq!(engine.transmitted(), 1);
}

#[test]
fn count_bounded_session_sends_three_probes() {
    let mut engine = probing(Some(3), None);
    // probe 0 is answered after 5 ms
    assert_eq!(engine.step(polled(MILLI)), Action::TakeTimer);
    assert_eq!(engine.step(Event::Timer { fired: false }), Action::Receive { timeout: 2 * SECOND });
    assert_eq!(engine.step(message(0, 5 * MILLI)), reply(0, 5 * MILLI, 5));
    assert_eq!(engine.step(Event::Done), Action::Poll);
    // nothing within this receive
    assert_eq!(engine.step(polled(6 * MILLI)), Action::TakeTimer);
    assert_eq!(engine.step(Event::Timer { fired: false }), Action::Receive { timeout: 2 * SECOND });
    assert_eq!(engine.step(Event::ReceiveFailed(IoFailure::Interrupted)), Action::Poll);
    // the timer has fired: probe 1 goes out and is answered after 7 ms
    assert_eq!(engine.step(polled(SECOND)), Action::TakeTimer);
    assert_eq!(engine.step(Event::Timer { fired: true }), Action::Send { sequence: 1 });
    assert_eq!(engine.step(Event::Sent(None)), Action::Receive { timeout: 2 * SECOND });
    assert_eq!(engine.step(message(1, SECOND + 7 * MILLI)), reply(1, SECOND + 7 * MILLI, 7));
    assert_eq!(engine.step(Event::Done), Action::Poll);
    // probe 2
    assert_eq!(engine.step(polled(2 * SECOND)), Action::TakeTimer);
    assert_eq!(engine.step(Event::Timer { fired: true }), Action::Send { sequence: 2 });
    assert_eq!(engine.step(Event::Sent(None)), Action::Receive { timeout: 2 * SECOND });
    assert_eq!(engine.step(message(2, 2 * SECOND + 9 * MILLI + 999_999)), reply(2, 2 * SECOND + 9 * MILLI + 999_999, 9));
    assert_eq!(engine.step(Event::Done), Action::Poll);
    // three replies: the loop ends here, with no fourth probe
    assert_eq!(engine.transmitted(), 3);
    assert_eq!(engine.received(), 3);
    assert_eq!(engine.step(polled(2 * SECOND + 10 * MILLI)), Action::Release);
    assert_eq!(engine.phase(), Phase::Draining);
    assert_eq!(
        engine.step(Event::Released { elapsed: 2 * SECOND + 11 * MILLI }),
        Action::Summarize(Report {
            transmitted: 3,
            received: 3,
            loss_percentage: Some(0),
            elapsed_ms: 2011,
            round_trip: Some(RoundTripSummary {
                min: 5,
                max: 9,
                mean: 7,
                spread: 7,
                sum: 21,
                sum_squares: 155,
                samples: 3,
            }),
        })
    );
    assert_eq!(engine.step(Event::Done), Action::Finish(None));
    assert_eq!(engine.phase(), Phase::Done);
    assert_eq!(engine.transmitted(), 3);
    assert_eq!(engine.step(Event::Timer { fired: true }), Action::Finish(None));
}

#[test]
fn stop_request_ends_the_loop_and_still_reports() {
    let mut engine = probing(None, None);
    assert_eq!(engine.step(polled(MILLI)), Action::TakeTimer);
    assert_eq!(engine.step(Event::Timer { fired: false }), Action::Receive { timeout: 2 * SECOND });
    assert_eq!(engine.step(message(0, 4 * MILLI)), reply(0, 4 * MILLI, 4));
    assert_eq!(engine.step(Event::Done), Action::Poll);
    assert_eq!(engine.step(polled(SECOND)), Action::TakeTimer);
    assert_eq!(engine.step(Event::Timer { fired: true }), Action::Send { sequence: 1 });
    assert_eq!(engine.step(Event::Sent(None)), Action::Receive { timeout: 2 * SECOND });
    // the signal arrives while the receive is blocked
    assert_eq!(engine.step(Event::ReceiveFailed(IoFailure::Interrupted)), Action::Poll);
    assert_eq!(
        engine.step(Event::Polled { stop_requested: true, elapsed: SECOND + 500 * MILLI }),
        Action::Release
    );
    assert_eq!(
        engine.step(Event::Released { elapsed: SECOND + 501 * MILLI }),
        Action::Summarize(Report {
            transmitted: 2,
            received: 1,
            loss_percentage: Some(50),
            elapsed_ms: 1501,
            round_trip: Some(RoundTripSummary {
                min: 4,
                max: 4,
                mean: 4,
                spread: 4,
                sum: 4,
                sum_squares: 16,
                samples: 1,
            }),
        })
    );
    assert_eq!(engine.step(Event::Done), Action::Finish(None));
}

#[test]
fn stop_request_wins_over_a_pending_timer() {
    let mut engine = probing(None, None);
    assert_eq!(
        engine.step(Event::Polled { stop_requested: true, elapsed: 0 }),
        Action::Release
    );
    assert_eq!(engine.transmitted(), 1);
}

#[test]
fn deadline_ends_the_loop() {
    let mut engine = probing(None, Some(3 * SECOND));
    assert_eq!(engine.step(polled(3 * SECOND - 1)), Action::TakeTimer);
    assert_eq!(engine.step(Event::Timer { fired: false }), Action::Receive { timeout: 2 * SECOND });
    assert_eq!(engine.step(Event::ReceiveFailed(IoFailure::Interrupted)), Action::Poll);
    assert_eq!(engine.step(polled(3 * SECOND)), Action::Release);
    assert_eq!(
        engine.step(Event::Released { elapsed: 3 * SECOND }),
        Action::Summarize(Report {
            transmitted: 1,
            received: 0,
            loss_percentage: Some(100),
            elapsed_ms: 3000,
            round_trip: None,
        })
    );
}

#[test]
fn malformed_datagram_is_not_counted_and_not_printed() {
    let mut corrupt = encode_message(EchoKind::Reply, 0, IDENTIFIER, 56);
    corrupt[20] ^= 0x10;
    let request = encode(0, IDENTIFIER, 56, 64);
    let short = vec![0u8, 0, 0xff];
    for bytes in [corrupt, request, short, Vec::new()] {
        let mut engine = receiving(None, MILLI);
        let action = engine.step(Event::Message { bytes, peer: PEER, ttl: 64, elapsed: 2 * MILLI });
        assert_eq!(action, Action::Poll);
        assert_eq!(engine.received(), 0);
        assert_eq!(engine.stage(), Stage::Polling);
        assert_eq!(engine.report(0).round_trip, None);
    }
}

#[test]
fn duplicate_replies_are_counted() {
    let mut engine = receiving(None, MILLI);
    assert_eq!(engine.step(message(0, 3 * MILLI)), reply(0, 3 * MILLI, 3));
    assert_eq!(engine.step(Event::Done), Action::Poll);
    assert_eq!(engine.step(polled(4 * MILLI)), Action::TakeTimer);
    assert_eq!(engine.step(Event::Timer { fired: false }), Action::Receive { timeout: 2 * SECOND });
    assert_eq!(engine.step(message(0, 8 * MILLI)), reply(0, 8 * MILLI, 8));
    assert_eq!(engine.received(), 2);
    assert_eq!(engine.transmitted(), 1);
    assert_eq!(engine.report(0).loss_percentage, Some(0));
}

#[test]
fn round_trip_is_measured_from_the_scheduled_send() {
    // probe 3 was due at 3 s; a reply at 3.25 s took 250 ms
    let mut engine = receiving(None, 3 * SECOND);
    assert_eq!(engine.step(message(3, 3 * SECOND + 250 * MILLI)), reply(3, 3 * SECOND + 250 * MILLI, 250));
}

#[test]
fn round_trip_is_zero_for_a_reply_ahead_of_schedule() {
    let mut engine = receiving(None, MILLI);
    assert_eq!(engine.step(message(9, 2 * MILLI)), reply(9, 2 * MILLI, 0));
    assert_eq!(engine.report(0).round_trip.unwrap().max, 0);
}

#[test]
fn round_trip_at_the_end_of_the_clock() {
    let mut engine = receiving(None, MILLI);
    assert_eq!(engine.step(message(0, u64::MAX)), reply(0, u64::MAX, 18_446_744_073_709));
    let mut engine = receiving(None, MILLI);
    assert_eq!(engine.step(message(u16::MAX, u64::MAX)), reply(u16::MAX, u64::MAX, 18_446_678_538_709));
}

#[test]
fn transient_send_failure_counts_as_sent() {
    let mut engine = probing(None, None);
    assert_eq!(engine.step(polled(SECOND)), Action::TakeTimer);
    assert_eq!(engine.step(Event::Timer { fired: true }), Action::Send { sequence: 1 });
    assert_eq!(
        engine.step(Event::Sent(Some(IoFailure::HostUnreachable))),
        Action::Receive { timeout: 2 * SECOND }
    );
    assert_eq!(engine.transmitted(), 2);
    assert_eq!(engine.phase(), Phase::Probing);
}

#[test]
fn forbidden_send_in_the_loop_is_an_ordinary_failure() {
    let mut engine = probing(None, None);
    assert_eq!(engine.step(polled(SECOND)), Action::TakeTimer);
    assert_eq!(engine.step(Event::Timer { fired: true }), Action::Send { sequence: 1 });
    assert_eq!(engine.step(Event::Sent(Some(IoFailure::PermissionDenied))), Action::Release);
    assert_eq!(engine.transmitted(), 1);
    assert!(matches!(engine.step(Event::Released { elapsed: SECOND }), Action::Summarize(_)));
    assert_eq!(
        engine.step(Event::Done),
        Action::Finish(Some(Fault::Send(IoFailure::PermissionDenied)))
    );
}

#[test]
fn receive_failure_reports_then_fails() {
    let mut engine = receiving(None, MILLI);
    assert_eq!(engine.step(Event::ReceiveFailed(IoFailure::TimedOut)), Action::Release);
    assert_eq!(
        engine.step(Event::Released { elapsed: 2 * SECOND }),
        Action::Summarize(Report {
            transmitted: 1,
            received: 0,
            loss_percentage: Some(100),
            elapsed_ms: 2000,
            round_trip: None,
        })
    );
    assert_eq!(engine.step(Event::Done), Action::Finish(Some(Fault::Receive(IoFailure::TimedOut))));
}

#[test]
fn unexpected_event_is_rejected_and_changes_nothing() {
    let mut engine = PingEngine::new(context(None, None), IDENTIFIER);
    assert_eq!(engine.step(Event::Done), Action::Rejected);
    assert_eq!(engine.stage(), Stage::Created);
    let mut engine = probing(None, None);
    assert_eq!(engine.step(Event::Sent(None)), Action::Rejected);
    assert_eq!(engine.step(message(0, MILLI)), Action::Rejected);
    assert_eq!(engine.step(Event::Timer { fired: true }), Action::Rejected);
    assert_eq!(engine.stage(), Stage::Polling);
    assert_eq!(engine.transmitted(), 1);
    assert_eq!(engine.received(), 0);
    assert_eq!(engine.step(polled(MILLI)), Action::TakeTimer);
}

#[test]
fn raw_receive_is_consumed_one_datagram_per_iteration() {
    let first = encode_message(EchoKind::Reply, 0, IDENTIFIER, 56);
    let noise = encode(0, IDENTIFIER, 56, 64);
    let second = encode_message(EchoKind::Reply, 0, IDENTIFIER, 8);
    let mut bytes = raw_packet(61, [10, 0, 0, 7], &first);
    bytes.extend_from_slice(&raw_packet(62, [10, 0, 0, 8], &noise));
    bytes.extend_from_slice(&raw_packet(63, [10, 0, 0, 9], &second));

    let mut engine = receiving(None, MILLI);
    assert_eq!(
        engine.step(Event::Raw { bytes, elapsed: 12 * MILLI }),
        Action::Reply(ReceivedReply {
            sequence: 0,
            payload_size: 56,
            peer: PeerAddress::V4(0x0a00_0007),
            ttl: 61,
            arrival: 12 * MILLI,
            round_trip_ms: 12,
        })
    );
    assert_eq!(engine.step(Event::Done), Action::Poll);
    // the second packet is still pending: it is looked at without another receive
    assert_eq!(engine.step(polled(13 * MILLI)), Action::TakeTimer);
    assert_eq!(engine.step(Event::Timer { fired: false }), Action::Poll);
    assert_eq!(engine.received(), 1);
    // and so is the third, which keeps the arrival time of its receive
    assert_eq!(engine.step(polled(14 * MILLI)), Action::TakeTimer);
    assert_eq!(
        engine.step(Event::Timer { fired: false }),
        Action::Reply(ReceivedReply {
            sequence: 0,
            payload_size: 8,
            peer: PeerAddress::V4(0x0a00_0009),
            ttl: 63,
            arrival: 12 * MILLI,
            round_trip_ms: 12,
        })
    );
    assert_eq!(engine.step(Event::Done), Action::Poll);
    assert_eq!(engine.received(), 2);
    // nothing is pending any more
    assert_eq!(engine.step(polled(15 * MILLI)), Action::TakeTimer);
    assert_eq!(engine.step(Event::Timer { fired: false }), Action::Receive { timeout: 2 * SECOND });
}

#[test]
fn raw_receive_after_a_send_is_consumed_first() {
    let first = encode_message(EchoKind::Reply, 0, IDENTIFIER, 56);
    let second = encode_message(EchoKind::Reply, 1, IDENTIFIER, 56);
    let mut bytes = raw_packet(64, [10, 0, 0, 7], &first);
    bytes.extend_from_slice(&raw_packet(64, [10, 0, 0, 7], &second));
    let mut engine = receiving(None, MILLI);
    assert!(matches!(engine.step(Event::Raw { bytes, elapsed: SECOND }), Action::Reply(_)));
    assert_eq!(engine.step(Event::Done), Action::Poll);
    assert_eq!(engine.step(polled(SECOND)), Action::TakeTimer);
    assert_eq!(engine.step(Event::Timer { fired: true }), Action::Send { sequence: 1 });
    assert_eq!(
        engine.step(Event::Sent(None)),
        Action::Reply(ReceivedReply {
            sequence: 1,
            payload_size: 56,
            peer: PeerAddress::V4(0x0a00_0007),
            ttl: 64,
            arrival: SECOND,
            round_trip_ms: 0,
        })
    );
}

#[test]
fn raw_noise_is_dropped() {
    let mut engine = receiving(None, MILLI);
    assert_eq!(engine.step(Event::Raw { bytes: vec![1, 2, 3], elapsed: MILLI }), Action::Poll);
    assert_eq!(engine.received(), 0);
    assert_eq!(engine.step(polled(MILLI)), Action::TakeTimer);
    assert_eq!(engine.step(Event::Timer { fired: false }), Action::Receive { timeout: 2 * SECOND });
}

#[test]
fn sequence_numbers_wrap_at_sixteen_bits() {
    let mut engine = probing(None, None);
    for sent in 1..=65_536u64 {
        assert_eq!(engine.transmitted(), sent);
        assert_eq!(engine.step(polled(sent)), Action::TakeTimer);
        assert_eq!(
            engine.step(Event::Timer { fired: true }),
            Action::Send { sequence: (sent % 65_536) as u16 }
        );
        assert_eq!(engine.step(Event::Sent(None)), Action::Receive { timeout: 2 * SECOND });
        assert_eq!(engine.step(Event::ReceiveFailed(IoFailure::Interrupted)), Action::Poll);
    }
    assert_eq!(engine.transmitted(), 65_537);
    assert_eq!(engine.report(0).loss_percentage, Some(100));
}

#[test]
fn report_can_be_read_at_any_time() {
    let mut engine = receiving(None, MILLI);
    assert_eq!(engine.step(message(0, 10 * MILLI)), reply(0, 10 * MILLI, 10));
    assert_eq!(
        engine.report(1_999_999),
        Report {
            transmitted: 1,
            received: 1,
            loss_percentage: Some(0),
            elapsed_ms: 1,
            round_trip: Some(RoundTripSummary {
                min: 10,
                max: 10,
                mean: 10,
                spread: 10,
                sum: 10,
                sum_squares: 100,
                samples: 1,
            }),
        }
    );
}

#[test]
fn headroom_is_far_away() {
    let engine = receiving(None, MILLI);
    assert!(engine.has_headroom());
    assert_eq!(MAX_REPLIES, 1_000_000_000_000);
}

#[test]
fn reply_limit_holds_against_pending_datagrams() {
    let first = encode_message(EchoKind::Reply, 0, IDENTIFIER, 56);
    let mut bytes = raw_packet(64, [10, 0, 0, 7], &first);
    bytes.extend_from_slice(&raw_packet(64, [10, 0, 0, 7], &first));
    let mut engine = receiving(Some(1), MILLI);
    assert!(matches!(engine.step(Event::Raw { bytes, elapsed: 2 * MILLI }), Action::Reply(_)));
    assert_eq!(engine.step(Event::Done), Action::Poll);
    // one reply was asked for: the duplicate that is still pending is never counted
    assert_eq!(engine.step(polled(3 * MILLI)), Action::Release);
    assert_eq!(engine.received(), 1);
    assert_eq!(
        engine.step(Event::Released { elapsed: 4 * MILLI }),
        Action::Summarize(Report {
            transmitted: 1,
            received: 1,
            loss_percentage: Some(0),
            elapsed_ms: 4,
            round_trip: Some(RoundTripSummary {
                min: 2,
                max: 2,
                mean: 2,
                spread: 2,
                sum: 2,
                sum_squares: 4,
                samples: 1,
            }),
        })
    );
}

#[test]
fn headroom_is_asked_for_only_where_a_counter_may_grow() {
    let mut engine = PingEngine::new(context(None, None), IDENTIFIER);
    for event in [Event::Start, Event::Resolved(Some(PEER)), Event::Done, Event::Sent(None)] {
        assert!(engine.has_headroom());
        engine.step(event);
    }
    assert!(engine.has_headroom());
}

#[test]
fn timer_is_armed_with_the_schedule_of_the_interval() {
    let mut context = context(None, None);
    context.interval = 200_000_500;
    let mut engine = PingEngine::new(context, IDENTIFIER);
    engine.step(Event::Start);
    let value = TimerValue { seconds: 0, microseconds: 200_001 };
    assert_eq!(
        engine.step(Event::Resolved(Some(PEER))),
        Action::Arm { schedule: TimerSchedule { initial: value, period: value } }
    );
}
