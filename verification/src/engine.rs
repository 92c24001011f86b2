//! The probing session as a state machine.
//!
//! The engine decides; its caller acts. Every call of [`PingEngine::step`]
//! hands the engine the outcome of what it asked for last and returns what to
//! do next: resolve the destination, arm the timer, send a probe, look at the
//! flags, wait for a datagram, print a line. Sockets, signals and the clock
//! never enter the engine; their results come in as plain values, with all
//! times in nanoseconds since the session started.

use crate::packet::{decode, decoded, encode, encoded, EchoKind, MAX_PAYLOAD_SIZE};
use crate::stats::{lemma_total_squares_bound, RoundTripSummary, RunningStatistics, StatisticsModel};
use crate::timer::TimerSchedule;
use crate::transport::{
    classify_receive, classify_send, first_datagram, recv_error_of, rest_after_first,
    send_result_of, IoFailure, PeerAddress, RawDatagram, RecvError, ResidualBuffer, SendError,
};
use vstd::prelude::*;

verus! {

/// Nanoseconds in a millisecond.
pub const NANOS_PER_MILLI: u64 = 1_000_000;

/// The longest round trip that a clock of 64-bit nanoseconds can show, in
/// milliseconds.
pub const MAX_ROUND_TRIP_MS: u64 = 18_446_744_073_709;

/// The number of replies a session can record: that many squared round trips
/// fit the 128-bit sum of squares.
pub const MAX_REPLIES: u64 = 1_000_000_000_000;

/// The configuration of a session, fixed once the session starts.
pub struct PingContext {
    /// The number of replies to receive; `None` for no limit.
    pub count: Option<u16>,
    /// The interval between probes, in nanoseconds.
    pub interval: u64,
    /// The time after which the session ends however many replies came, in
    /// nanoseconds; `None` for no deadline.
    pub deadline: Option<u64>,
    /// The time to wait for a datagram in one receive, in nanoseconds.
    pub timeout: u64,
    /// The number of payload bytes in a probe.
    pub packet_size: usize,
    /// Time to live of the probes.
    pub ttl: u8,
    /// The destination as the user gave it, an address or a host name.
    pub dest: String,
}

impl PingContext {
    /// A reply limit is positive, the interval is positive and the payload
    /// fits a datagram.
    pub open spec fn valid(&self) -> bool {
        &&& self.count != Some(0u16)
        &&& self.interval > 0
        &&& self.packet_size <= MAX_PAYLOAD_SIZE
    }

    /// Tells whether a session can be run with this configuration.
    pub fn is_valid(&self) -> (valid: bool)
        ensures
            valid == self.valid(),
    {
        let limited = match self.count {
            Some(limit) => limit > 0,
            None => true,
        };
        limited && self.interval > 0 && self.packet_size <= MAX_PAYLOAD_SIZE
    }
}

/// The five phases of a session.
#[derive(Clone, Copy, Debug, PartialEq, Eq, Structural)]
pub enum Phase {
    Init,
    Probing,
    Draining,
    Reporting,
    Done,
}

/// Where the session stands: which answer the engine is waiting for.
#[derive(Clone, Copy, Debug, PartialEq, Eq, Structural)]
pub enum Stage {
    /// Nothing has been asked yet.
    Created,
    /// The destination is being resolved.
    Resolving,
    /// Signal handlers and the interval timer are being set up.
    Arming,
    /// The first probe is being sent.
    FirstSend,
    /// The opening line is being printed.
    Announcing,
    /// Top of the loop: the stop flag and the clock are being read.
    Polling,
    /// The timer flag is being read and cleared.
    TakingTimer,
    /// A further probe is being sent.
    Sending,
    /// The caller is blocked in a receive.
    Receiving,
    /// A reply line is being printed.
    Printing,
    /// Transport and timer are being released.
    Releasing,
    /// The summary is being printed.
    Summarizing,
    /// The session is over.
    Finished,
}

/// Why a session ended abnormally.
#[derive(Clone, Copy, Debug, PartialEq, Eq, Structural)]
pub enum Fault {
    /// The destination could not be resolved.
    Unresolved,
    /// The very first probe was refused for want of permission.
    Forbidden,
    /// A send failed for good.
    Send(IoFailure),
    /// A receive failed for good.
    Receive(IoFailure),
}

/// An echo reply that passed validation, with where it came from, when it
/// arrived and how long the round trip took.
#[derive(Clone, Copy, Debug, PartialEq, Eq, Structural)]
pub struct ReceivedReply {
    pub sequence: u16,
    pub payload_size: usize,
    pub peer: PeerAddress,
    pub ttl: u8,
    /// Arrival, in nanoseconds since the session started.
    pub arrival: u64,
    /// Round-trip time in milliseconds.
    pub round_trip_ms: u64,
}

/// The figures of the closing summary.
#[derive(Clone, Copy, Debug, PartialEq, Eq)]
pub struct Report {
    pub transmitted: u64,
    pub received: u64,
    /// Loss in percent; there is none to state when nothing was transmitted.
    pub loss_percentage: Option<u64>,
    /// Length of the session in milliseconds.
    pub elapsed_ms: u64,
    /// Round-trip figures, once a reply has been received.
    pub round_trip: Option<RoundTripSummary>,
}

/// What the caller reports back to the engine.
pub enum Event {
    /// The session is to begin.
    Start,
    /// The resolver's answer; `None` when the destination has no address.
    Resolved(Option<PeerAddress>),
    /// The last request, one without a result, has been carried out.
    Done,
    /// The outcome of a send; `None` for success.
    Sent(Option<IoFailure>),
    /// The stop flag and the clock, read at the top of the loop.
    Polled { stop_requested: bool, elapsed: u64 },
    /// The timer flag, read and cleared.
    Timer { fired: bool },
    /// The receive failed, or was interrupted.
    ReceiveFailed(IoFailure),
    /// One echo message, with the sender and time to live that the transport
    /// reported for it.
    Message { bytes: Vec<u8>, peer: PeerAddress, ttl: u8, elapsed: u64 },
    /// The bytes of one receive from a transport that reports no metadata:
    /// whole network-layer packets, possibly several.
    Raw { bytes: Vec<u8>, elapsed: u64 },
    /// Transport and timer are released; the clock at that moment.
    Released { elapsed: u64 },
}

/// What the engine asks of its caller.
#[derive(Clone, Copy, Debug, PartialEq, Eq)]
pub enum Action {
    /// Resolve the destination and answer with `Event::Resolved`.
    Resolve,
    /// Register the handlers for the timer and the stop signal, start the
    /// timer with this schedule, and answer with `Event::Done`.
    Arm { schedule: TimerSchedule },
    /// Send the probe with this sequence number and answer with `Event::Sent`.
    Send { sequence: u16 },
    /// Print the opening line and answer with `Event::Done`.
    Announce { address: PeerAddress, payload_size: usize },
    /// Read the stop flag and the clock and answer with `Event::Polled`.
    Poll,
    /// Read and clear the timer flag and answer with `Event::Timer`.
    TakeTimer,
    /// Wait for a datagram for at most this long and answer with
    /// `Event::Message`, `Event::Raw` or `Event::ReceiveFailed`.
    Receive { timeout: u64 },
    /// Print the line for this reply and answer with `Event::Done`.
    Reply(ReceivedReply),
    /// Release transport and timer and answer with `Event::Released`.
    Release,
    /// Print the summary and answer with `Event::Done`.
    Summarize(Report),
    /// The session is over; `None` for a normal end.
    Finish(Option<Fault>),
    /// The event did not answer the outstanding request; nothing has changed.
    Rejected,
}

/// The round-trip time of a reply to probe `sequence` that arrived `arrival`
/// nanoseconds into the session: the time since that probe was due,
/// `interval * sequence`, in whole milliseconds, and zero if the reply came
/// before that.
pub open spec fn round_trip_ms(arrival: u64, interval: u64, sequence: u16) -> u64 {
    if arrival >= interval * sequence {
        ((arrival - interval * sequence) / (NANOS_PER_MILLI as int)) as u64
    } else {
        0
    }
}

/// The summary of the statistics `stats` for a session that took `elapsed`
/// nanoseconds.
pub open spec fn report_of(stats: StatisticsModel, elapsed: u64) -> Report {
    Report {
        transmitted: stats.transmitted as u64,
        received: stats.received() as u64,
        loss_percentage: if stats.transmitted > 0 {
            Some(stats.loss_percentage() as u64)
        } else {
            None
        },
        elapsed_ms: elapsed / NANOS_PER_MILLI,
        round_trip: stats.summary(),
    }
}

/// The state of a session as plain mathematical values.
#[verifier::ext_equal]
pub struct EngineModel {
    pub count: Option<u16>,
    pub interval: u64,
    pub deadline: Option<u64>,
    pub timeout: u64,
    pub packet_size: usize,
    pub ttl: u8,
    pub dest: Seq<char>,
    pub identifier: u16,
    pub stage: Stage,
    /// The resolved destination, once known.
    pub address: Option<PeerAddress>,
    pub stats: StatisticsModel,
    /// Received bytes not yet looked at.
    pub pending: Seq<u8>,
    /// When the pending bytes arrived.
    pub arrival: u64,
    /// The failure that ended the loop, if one did.
    pub fault: Option<Fault>,
}

/// A step of the machine: the state it leads to and the request it makes.
#[verifier::ext_equal]
pub struct Transition {
    pub model: EngineModel,
    pub action: Action,
}

impl EngineModel {
    /// The state of a session that has not begun.
    pub open spec fn initial(context: PingContext, identifier: u16) -> Self {
        EngineModel {
            count: context.count,
            interval: context.interval,
            deadline: context.deadline,
            timeout: context.timeout,
            packet_size: context.packet_size,
            ttl: context.ttl,
            dest: context.dest@,
            identifier,
            stage: Stage::Created,
            address: None,
            stats: StatisticsModel::empty(),
            pending: Seq::empty(),
            arrival: 0,
            fault: None,
        }
    }

    /// The states a session can be in. The configuration is valid; no sample
    /// exceeds what the clock can show; nothing is counted before the first
    /// probe is sent; a session with a reply limit never holds more replies
    /// than its limit, and holds fewer while it may still take one; and a
    /// fault is on record only once the loop has ended.
    pub open spec fn wf(self) -> bool {
        &&& self.count != Some(0u16)
        &&& self.interval > 0
        &&& self.packet_size <= MAX_PAYLOAD_SIZE
        &&& forall|i: int|
            0 <= i < self.stats.samples.len() ==> self.stats.samples[i] <= MAX_ROUND_TRIP_MS
        &&& (self.stage is Created || self.stage is Resolving || self.stage is Arming || self.stage
            is FirstSend) ==> self.stats == StatisticsModel::empty()
        &&& (self.stage is Arming || self.stage is FirstSend) ==> self.address is Some
        &&& self.count matches Some(limit) ==> self.stats.received() <= limit && (
        self.may_take_datagram() ==> self.stats.received() < limit)
        &&& self.fault is Some ==> self.stage is Releasing || self.stage is Summarizing
            || self.stage is Finished
        &&& (self.fault == Some(Fault::Forbidden) || self.fault == Some(Fault::Unresolved))
            ==> self.stats == StatisticsModel::empty()
    }

    /// The phase that a stage belongs to.
    pub open spec fn phase(self) -> Phase {
        match self.stage {
            Stage::Created | Stage::Resolving | Stage::Arming | Stage::FirstSend | Stage::Announcing => {
                Phase::Init
            },
            Stage::Polling | Stage::TakingTimer | Stage::Sending | Stage::Receiving | Stage::Printing => {
                Phase::Probing
            },
            Stage::Releasing => Phase::Draining,
            Stage::Summarizing => Phase::Reporting,
            Stage::Finished => Phase::Done,
        }
    }

    /// The stages of an iteration at which a datagram may still be looked at.
    pub open spec fn may_take_datagram(self) -> bool {
        self.stage is TakingTimer || self.stage is Sending || self.stage is Receiving
    }

    /// The counters can take what the next step may add: one more probe
    /// where a send is being answered, one more reply where a datagram may
    /// be looked at.
    pub open spec fn has_headroom(self) -> bool {
        &&& (self.stage is FirstSend || self.stage is Sending) ==> self.stats.transmitted
            < u64::MAX
        &&& self.may_take_datagram() ==> self.stats.received() < MAX_REPLIES
    }

    /// The continuation test at the top of the loop: no stop was requested,
    /// the reply limit is not reached and the deadline has not passed.
    pub open spec fn may_continue(self, stop_requested: bool, elapsed: u64) -> bool {
        &&& !stop_requested
        &&& match self.count {
            Some(limit) => self.stats.received() < limit,
            None => true,
        }
        &&& match self.deadline {
            Some(deadline) => elapsed < deadline,
            None => true,
        }
    }

    /// The sequence number of the next probe: the number of probes sent so
    /// far, wrapping at sixteen bits.
    pub open spec fn next_sequence(self) -> u16 {
        (self.stats.transmitted % 0x1_0000) as u16
    }

    /// The datagram of the probe with sequence number `sequence`.
    pub open spec fn probe(self, sequence: u16) -> Seq<u8> {
        encoded(EchoKind::Request, sequence, self.identifier, self.packet_size as nat)
    }

    /// The session moves to `stage` and asks for `action`; nothing else changes.
    pub open spec fn goto(self, stage: Stage, action: Action) -> Transition {
        Transition { model: EngineModel { stage, ..self }, action }
    }

    /// The event is turned away and the session stays as it is.
    pub open spec fn rejected(self) -> Transition {
        Transition { model: self, action: Action::Rejected }
    }

    /// The loop ends on `fault`: the resources are released next.
    pub open spec fn fail(self, fault: Fault) -> Transition {
        Transition {
            model: EngineModel { stage: Stage::Releasing, fault: Some(fault), ..self },
            action: Action::Release,
        }
    }

    /// A message has been cut out or received: a reply is recorded and
    /// printed, anything else is passed over.
    pub open spec fn accept(self, message: Seq<u8>, peer: PeerAddress, ttl: u8, arrival: u64) -> Transition {
        match decoded(message) {
            Some(reply) => {
                let time = round_trip_ms(arrival, self.interval, reply.sequence);
                Transition {
                    model: EngineModel {
                        stage: Stage::Printing,
                        stats: self.stats.with_sample(time),
                        ..self
                    },
                    action: Action::Reply(
                        ReceivedReply {
                            sequence: reply.sequence,
                            payload_size: reply.payload_size,
                            peer,
                            ttl,
                            arrival,
                            round_trip_ms: time,
                        },
                    ),
                }
            },
            None => self.goto(Stage::Polling, Action::Poll),
        }
    }

    /// One packet is taken from the pending bytes, the rest kept.
    pub open spec fn consume(self) -> Transition {
        let rest = EngineModel { pending: rest_after_first(self.pending), ..self };
        match first_datagram(self.pending) {
            Some((payload, ttl, source)) => rest.accept(
                payload,
                PeerAddress::V4(source),
                ttl,
                self.arrival,
            ),
            None => rest.goto(Stage::Polling, Action::Poll),
        }
    }

    /// The receive step of the loop: bytes still pending are looked at
    /// first, and only without any does the caller wait for more.
    pub open spec fn await_datagram(self) -> Transition {
        if self.pending.len() == 0 {
            self.goto(Stage::Receiving, Action::Receive { timeout: self.timeout })
        } else {
            self.consume()
        }
    }

    /// The state reached from this one by a run of events, oldest first.
    pub open spec fn after(self, events: Seq<Event>) -> EngineModel
        decreases events.len(),
    {
        if events.len() == 0 {
            self
        } else {
            self.after(events.drop_last()).transition(events.last()).model
        }
    }

    /// The steps of the first phase: resolve, arm, send the first probe,
    /// announce.
    pub open spec fn init_transition(self, event: Event) -> Transition {
        match self.stage {
            Stage::Created => match event {
                Event::Start => self.goto(Stage::Resolving, Action::Resolve),
                _ => self.rejected(),
            },
            Stage::Resolving => match event {
                Event::Resolved(Some(address)) => Transition {
                    model: EngineModel { stage: Stage::Arming, address: Some(address), ..self },
                    action: Action::Arm { schedule: TimerSchedule::every(self.interval) },
                },
                Event::Resolved(None) => Transition {
                    model: EngineModel {
                        stage: Stage::Finished,
                        fault: Some(Fault::Unresolved),
                        ..self
                    },
                    action: Action::Finish(Some(Fault::Unresolved)),
                },
                _ => self.rejected(),
            },
            Stage::Arming => match event {
                Event::Done => self.goto(
                    Stage::FirstSend,
                    Action::Send { sequence: self.next_sequence() },
                ),
                _ => self.rejected(),
            },
            Stage::FirstSend => match event {
                Event::Sent(outcome) => match send_result_of(outcome) {
                    Ok(()) | Err(SendError::Transient) => Transition {
                        model: EngineModel {
                            stage: Stage::Announcing,
                            stats: self.stats.with_transmission(),
                            ..self
                        },
                        action: Action::Announce {
                            address: self.address.unwrap(),
                            payload_size: self.packet_size,
                        },
                    },
                    Err(SendError::Forbidden) => self.fail(Fault::Forbidden),
                    Err(SendError::Fatal) => self.fail(Fault::Send(outcome.unwrap())),
                },
                _ => self.rejected(),
            },
            _ => match event {
                Event::Done => self.goto(Stage::Polling, Action::Poll),
                _ => self.rejected(),
            },
        }
    }

    /// The steps of the loop: test for continuation, take the timer and
    /// send, wait for a datagram, print.
    pub open spec fn probing_transition(self, event: Event) -> Transition {
        match self.stage {
            Stage::Polling => match event {
                Event::Polled { stop_requested, elapsed } => if self.may_continue(
                    stop_requested,
                    elapsed,
                ) {
                    self.goto(Stage::TakingTimer, Action::TakeTimer)
                } else {
                    self.goto(Stage::Releasing, Action::Release)
                },
                _ => self.rejected(),
            },
            Stage::TakingTimer => match event {
                Event::Timer { fired } => if fired {
                    self.goto(Stage::Sending, Action::Send { sequence: self.next_sequence() })
                } else {
                    self.await_datagram()
                },
                _ => self.rejected(),
            },
            Stage::Sending => match event {
                Event::Sent(outcome) => match send_result_of(outcome) {
                    Ok(()) | Err(SendError::Transient) => EngineModel {
                        stats: self.stats.with_transmission(),
                        ..self
                    }.await_datagram(),
                    Err(_) => self.fail(Fault::Send(outcome.unwrap())),
                },
                _ => self.rejected(),
            },
            Stage::Receiving => match event {
                Event::ReceiveFailed(failure) => match recv_error_of(failure) {
                    RecvError::Interrupted => self.goto(Stage::Polling, Action::Poll),
                    RecvError::Fatal => self.fail(Fault::Receive(failure)),
                },
                Event::Message { bytes, peer, ttl, elapsed } => self.accept(
                    bytes@,
                    peer,
                    ttl,
                    elapsed,
                ),
                Event::Raw { bytes, elapsed } => EngineModel {
                    pending: self.pending + bytes@,
                    arrival: elapsed,
                    ..self
                }.consume(),
                _ => self.rejected(),
            },
            _ => match event {
                Event::Done => self.goto(Stage::Polling, Action::Poll),
                _ => self.rejected(),
            },
        }
    }

    /// The steps after the loop: release, summarize, finish.
    pub open spec fn closing_transition(self, event: Event) -> Transition {
        match self.stage {
            Stage::Releasing => match event {
                Event::Released { elapsed } => if self.fault == Some(Fault::Forbidden) {
                    self.goto(Stage::Finished, Action::Finish(self.fault))
                } else {
                    self.goto(Stage::Summarizing, Action::Summarize(report_of(self.stats, elapsed)))
                },
                _ => self.rejected(),
            },
            Stage::Summarizing => match event {
                Event::Done => self.goto(Stage::Finished, Action::Finish(self.fault)),
                _ => self.rejected(),
            },
            _ => Transition { model: self, action: Action::Finish(self.fault) },
        }
    }

    /// The transition function of the session.
    pub open spec fn transition(self, event: Event) -> Transition {
        match self.phase() {
            Phase::Init => self.init_transition(event),
            Phase::Probing => self.probing_transition(event),
            _ => self.closing_transition(event),
        }
    }
}

/// Computes the round-trip time of a reply.
fn round_trip(arrival: u64, interval: u64, sequence: u16) -> (time: u64)
    ensures
        time == round_trip_ms(arrival, interval, sequence),
        time <= MAX_ROUND_TRIP_MS,
{
    assert(interval * sequence <= u64::MAX * u16::MAX) by (nonlinear_arith)
        requires
            0 <= interval <= u64::MAX,
            0 <= sequence <= u16::MAX,
    ;
    let due: u128 = interval as u128 * sequence as u128;
    if arrival as u128 >= due {
        ((arrival as u128 - due) / NANOS_PER_MILLI as u128) as u64
    } else {
        0
    }
}

/// The engine of one session.
pub struct PingEngine {
    context: PingContext,
    identifier: u16,
    stage: Stage,
    address: Option<PeerAddress>,
    stats: RunningStatistics,
    residual: ResidualBuffer,
    arrival: u64,
    fault: Option<Fault>,
}

impl View for PingEngine {
    type V = EngineModel;

    closed spec fn view(&self) -> EngineModel {
        EngineModel {
            count: self.context.count,
            interval: self.context.interval,
            deadline: self.context.deadline,
            timeout: self.context.timeout,
            packet_size: self.context.packet_size,
            ttl: self.context.ttl,
            dest: self.context.dest@,
            identifier: self.identifier,
            stage: self.stage,
            address: self.address,
            stats: self.stats@,
            pending: self.residual@,
            arrival: self.arrival,
            fault: self.fault,
        }
    }
}

impl PingEngine {
    #[verifier::type_invariant]
    spec fn consistent(self) -> bool {
        self@.wf()
    }

    /// An engine for a session with this configuration, whose probes carry
    /// `identifier`.
    pub fn new(context: PingContext, identifier: u16) -> (engine: Self)
        requires
            context.valid(),
        ensures
            engine@ == EngineModel::initial(context, identifier),
            engine@.wf(),
    {
        PingEngine {
            context,
            identifier,
            stage: Stage::Created,
            address: None,
            stats: RunningStatistics::new(),
            residual: ResidualBuffer::new(),
            arrival: 0,
            fault: None,
        }
    }

    /// The configuration of the session.
    pub fn context(&self) -> (context: &PingContext)
        ensures
            context.count == self@.count,
            context.interval == self@.interval,
            context.deadline == self@.deadline,
            context.timeout == self@.timeout,
            context.packet_size == self@.packet_size,
            context.ttl == self@.ttl,
            context.dest@ == self@.dest,
            context.valid(),
    {
        proof {
            use_type_invariant(self);
        }
        &self.context
    }

    /// Where the session stands.
    pub fn stage(&self) -> (stage: Stage)
        ensures
            stage == self@.stage,
    {
        self.stage
    }

    /// The phase of the session.
    pub fn phase(&self) -> (phase: Phase)
        ensures
            phase == self@.phase(),
    {
        match self.stage {
            Stage::Created => Phase::Init,
            Stage::Resolving => Phase::Init,
            Stage::Arming => Phase::Init,
            Stage::FirstSend => Phase::Init,
            Stage::Announcing => Phase::Init,
            Stage::Polling => Phase::Probing,
            Stage::TakingTimer => Phase::Probing,
            Stage::Sending => Phase::Probing,
            Stage::Receiving => Phase::Probing,
            Stage::Printing => Phase::Probing,
            Stage::Releasing => Phase::Draining,
            Stage::Summarizing => Phase::Reporting,
            Stage::Finished => Phase::Done,
        }
    }

    /// Number of probes counted as transmitted.
    pub fn transmitted(&self) -> (count: u64)
        ensures
            count == self@.stats.transmitted,
    {
        self.stats.transmitted()
    }

    /// Number of replies received.
    pub fn received(&self) -> (count: u64)
        ensures
            count == self@.stats.received(),
    {
        self.stats.received()
    }

    /// Tells whether the counters can take what the next step may add to
    /// them, which `step` requires.
    pub fn has_headroom(&self) -> (room: bool)
        ensures
            room == self@.has_headroom(),
    {
        let counts_probe = match self.stage {
            Stage::FirstSend => true,
            Stage::Sending => true,
            _ => false,
        };
        let counts_reply = match self.stage {
            Stage::TakingTimer => true,
            Stage::Sending => true,
            Stage::Receiving => true,
            _ => false,
        };
        (!counts_probe || self.stats.transmitted() < u64::MAX) && (!counts_reply
            || self.stats.received() < MAX_REPLIES)
    }

    /// Encodes the probe with sequence number `sequence`.
    pub fn probe(&self, sequence: u16) -> (bytes: Vec<u8>)
        ensures
            bytes@ == self@.probe(sequence),
    {
        proof {
            use_type_invariant(self);
        }
        encode(sequence, self.identifier, self.context.packet_size, self.context.ttl)
    }

    /// The summary of the session so far, had it taken `elapsed` nanoseconds.
    pub fn report(&self, elapsed: u64) -> (report: Report)
        ensures
            report == report_of(self@.stats, elapsed),
    {
        Report {
            transmitted: self.stats.transmitted(),
            received: self.stats.received(),
            loss_percentage: self.stats.loss_percentage(),
            elapsed_ms: elapsed / NANOS_PER_MILLI,
            round_trip: self.stats.summary(),
        }
    }

    fn count_transmission(&mut self)
        requires
            old(self)@.stats.transmitted < u64::MAX,
            old(self)@.stage is Announcing || old(self)@.stage is Sending,
        ensures
            final(self)@ == (EngineModel {
                stats: old(self)@.stats.with_transmission(),
                ..old(self)@
            }),
    {
        proof {
            use_type_invariant(&*self);
        }
        let mut stats = RunningStatistics::new();
        core::mem::swap(&mut self.stats, &mut stats);
        stats.record_transmission();
        core::mem::swap(&mut self.stats, &mut stats);
    }

    fn record_sample(&mut self, time: u64)
        requires
            old(self)@.stats.received() < MAX_REPLIES,
            old(self)@.count matches Some(limit) ==> old(self)@.stats.received() < limit,
            time <= MAX_ROUND_TRIP_MS,
            old(self)@.stage is Printing,
        ensures
            final(self)@ == (EngineModel {
                stats: old(self)@.stats.with_sample(time),
                ..old(self)@
            }),
    {
        proof {
            use_type_invariant(&*self);
            let samples = self.stats@.samples;
            let limit = MAX_ROUND_TRIP_MS as nat;
            lemma_total_squares_bound(samples, limit);
            assert(limit * limit == 340282366920918112425016681) by (nonlinear_arith)
                requires
                    limit == 18_446_744_073_709,
            ;
            assert(time * time <= limit * limit) by (nonlinear_arith)
                requires
                    0 <= time <= limit,
            ;
            assert(samples.len() * (limit * limit) <= (MAX_REPLIES - 1) * (limit * limit))
                by (nonlinear_arith)
                requires
                    samples.len() <= MAX_REPLIES - 1,
            ;
        }
        let mut stats = RunningStatistics::new();
        core::mem::swap(&mut self.stats, &mut stats);
        stats.record(time);
        core::mem::swap(&mut self.stats, &mut stats);
    }

    fn keep_bytes(&mut self, received: &[u8], elapsed: u64)
        ensures
            final(self)@ == (EngineModel {
                pending: old(self)@.pending + received@,
                arrival: elapsed,
                ..old(self)@
            }),
    {
        proof {
            use_type_invariant(&*self);
        }
        let mut residual = ResidualBuffer::new();
        core::mem::swap(&mut self.residual, &mut residual);
        residual.extend(received);
        core::mem::swap(&mut self.residual, &mut residual);
        self.arrival = elapsed;
    }

    fn take_datagram(&mut self) -> (datagram: Option<RawDatagram>)
        ensures
            final(self)@ == (EngineModel {
                pending: rest_after_first(old(self)@.pending),
                ..old(self)@
            }),
            match datagram {
                Some(raw) => first_datagram(old(self)@.pending) == Some(
                    (raw.payload@, raw.ttl, raw.source),
                ),
                None => first_datagram(old(self)@.pending).is_none(),
            },
    {
        proof {
            use_type_invariant(&*self);
        }
        let mut residual = ResidualBuffer::new();
        core::mem::swap(&mut self.residual, &mut residual);
        let datagram = residual.next_datagram();
        core::mem::swap(&mut self.residual, &mut residual);
        datagram
    }

    fn fail(&mut self, fault: Fault) -> (action: Action)
        requires
            fault is Send || fault is Receive || old(self)@.stats == StatisticsModel::empty(),
        ensures
            final(self)@ == old(self)@.fail(fault).model,
            action == old(self)@.fail(fault).action,
    {
        proof {
            use_type_invariant(&*self);
        }
        self.stage = Stage::Releasing;
        self.fault = Some(fault);
        Action::Release
    }

    fn accept(&mut self, message: &[u8], peer: PeerAddress, ttl: u8, arrival: u64) -> (action:
        Action)
        requires
            old(self)@.stats.received() < MAX_REPLIES,
            old(self)@.may_take_datagram(),
        ensures
            final(self)@ == old(self)@.accept(message@, peer, ttl, arrival).model,
            action == old(self)@.accept(message@, peer, ttl, arrival).action,
    {
        proof {
            use_type_invariant(&*self);
        }
        match decode(message) {
            Some(reply) => {
                let time = round_trip(arrival, self.context.interval, reply.sequence);
                self.stage = Stage::Printing;
                self.record_sample(time);
                Action::Reply(
                    ReceivedReply {
                        sequence: reply.sequence,
                        payload_size: reply.payload_size,
                        peer,
                        ttl,
                        arrival,
                        round_trip_ms: time,
                    },
                )
            },
            None => {
                self.stage = Stage::Polling;
                Action::Poll
            },
        }
    }

    fn consume(&mut self) -> (action: Action)
        requires
            old(self)@.stats.received() < MAX_REPLIES,
            old(self)@.may_take_datagram(),
        ensures
            final(self)@ == old(self)@.consume().model,
            action == old(self)@.consume().action,
    {
        proof {
            use_type_invariant(&*self);
        }
        let arrival = self.arrival;
        match self.take_datagram() {
            Some(raw) => self.accept(
                raw.payload.as_slice(),
                PeerAddress::V4(raw.source),
                raw.ttl,
                arrival,
            ),
            None => {
                self.stage = Stage::Polling;
                Action::Poll
            },
        }
    }

    fn await_datagram(&mut self) -> (action: Action)
        requires
            old(self)@.stats.received() < MAX_REPLIES,
            old(self)@.may_take_datagram(),
        ensures
            final(self)@ == old(self)@.await_datagram().model,
            action == old(self)@.await_datagram().action,
    {
        proof {
            use_type_invariant(&*self);
        }
        if self.residual.is_empty() {
            self.stage = Stage::Receiving;
            Action::Receive { timeout: self.context.timeout }
        } else {
            self.consume()
        }
    }

    fn may_continue(&self, stop_requested: bool, elapsed: u64) -> (go_on: bool)
        ensures
            go_on == self@.may_continue(stop_requested, elapsed),
    {
        let below_limit = match self.context.count {
            Some(limit) => self.stats.received() < limit as u64,
            None => true,
        };
        let in_time = match self.context.deadline {
            Some(deadline) => elapsed < deadline,
            None => true,
        };
        !stop_requested && below_limit && in_time
    }

    fn next_sequence(&self) -> (sequence: u16)
        ensures
            sequence == self@.next_sequence(),
    {
        (self.stats.transmitted() % 0x1_0000) as u16
    }

    fn init_step(&mut self, event: Event) -> (action: Action)
        requires
            old(self)@.phase() is Init,
            old(self)@.has_headroom(),
        ensures
            final(self)@ == old(self)@.init_transition(event).model,
            action == old(self)@.init_transition(event).action,
    {
        proof {
            use_type_invariant(&*self);
        }
        match self.stage {
            Stage::Created => match event {
                Event::Start => {
                    self.stage = Stage::Resolving;
                    Action::Resolve
                },
                _ => Action::Rejected,
            },
            Stage::Resolving => match event {
                Event::Resolved(Some(address)) => {
                    self.address = Some(address);
                    self.stage = Stage::Arming;
                    Action::Arm { schedule: TimerSchedule::periodic(self.context.interval) }
                },
                Event::Resolved(None) => {
                    self.stage = Stage::Finished;
                    self.fault = Some(Fault::Unresolved);
                    Action::Finish(Some(Fault::Unresolved))
                },
                _ => Action::Rejected,
            },
            Stage::Arming => match event {
                Event::Done => {
                    let sequence = self.next_sequence();
                    self.stage = Stage::FirstSend;
                    Action::Send { sequence }
                },
                _ => Action::Rejected,
            },
            Stage::FirstSend => match event {
                Event::Sent(outcome) => match classify_send(outcome) {
                    Ok(()) | Err(SendError::Transient) => {
                        let address = self.address.unwrap();
                        self.stage = Stage::Announcing;
                        self.count_transmission();
                        Action::Announce { address, payload_size: self.context.packet_size }
                    },
                    Err(SendError::Forbidden) => self.fail(Fault::Forbidden),
                    Err(SendError::Fatal) => self.fail(Fault::Send(outcome.unwrap())),
                },
                _ => Action::Rejected,
            },
            _ => match event {
                Event::Done => {
                    self.stage = Stage::Polling;
                    Action::Poll
                },
                _ => Action::Rejected,
            },
        }
    }

    fn probing_step(&mut self, event: Event) -> (action: Action)
        requires
            old(self)@.phase() is Probing,
            old(self)@.has_headroom(),
        ensures
            final(self)@ == old(self)@.probing_transition(event).model,
            action == old(self)@.probing_transition(event).action,
    {
        proof {
            use_type_invariant(&*self);
        }
        match self.stage {
            Stage::Polling => match event {
                Event::Polled { stop_requested, elapsed } => {
                    if self.may_continue(stop_requested, elapsed) {
                        self.stage = Stage::TakingTimer;
                        Action::TakeTimer
                    } else {
                        self.stage = Stage::Releasing;
                        Action::Release
                    }
                },
                _ => Action::Rejected,
            },
            Stage::TakingTimer => match event {
                Event::Timer { fired } => {
                    if fired {
                        let sequence = self.next_sequence();
                        self.stage = Stage::Sending;
                        Action::Send { sequence }
                    } else {
                        self.await_datagram()
                    }
                },
                _ => Action::Rejected,
            },
            Stage::Sending => match event {
                Event::Sent(outcome) => match classify_send(outcome) {
                    Ok(()) | Err(SendError::Transient) => {
                        self.count_transmission();
                        self.await_datagram()
                    },
                    Err(_) => self.fail(Fault::Send(outcome.unwrap())),
                },
                _ => Action::Rejected,
            },
            Stage::Receiving => match event {
                Event::ReceiveFailed(failure) => match classify_receive(failure) {
                    RecvError::Interrupted => {
                        self.stage = Stage::Polling;
                        Action::Poll
                    },
                    RecvError::Fatal => self.fail(Fault::Receive(failure)),
                },
                Event::Message { bytes, peer, ttl, elapsed } => self.accept(
                    bytes.as_slice(),
                    peer,
                    ttl,
                    elapsed,
                ),
                Event::Raw { bytes, elapsed } => {
                    self.keep_bytes(bytes.as_slice(), elapsed);
                    self.consume()
                },
                _ => Action::Rejected,
            },
            _ => match event {
                Event::Done => {
                    self.stage = Stage::Polling;
                    Action::Poll
                },
                _ => Action::Rejected,
            },
        }
    }

    fn closing_step(&mut self, event: Event) -> (action: Action)
        requires
            old(self)@.phase() is Draining || old(self)@.phase() is Reporting || old(self)@.phase()
                is Done,
        ensures
            final(self)@ == old(self)@.closing_transition(event).model,
            action == old(self)@.closing_transition(event).action,
    {
        proof {
            use_type_invariant(&*self);
        }
        match self.stage {
            Stage::Releasing => match event {
                Event::Released { elapsed } => {
                    let forbidden = match self.fault {
                        Some(Fault::Forbidden) => true,
                        _ => false,
                    };
                    if forbidden {
                        self.stage = Stage::Finished;
                        Action::Finish(self.fault)
                    } else {
                        let report = self.report(elapsed);
                        self.stage = Stage::Summarizing;
                        Action::Summarize(report)
                    }
                },
                _ => Action::Rejected,
            },
            Stage::Summarizing => match event {
                Event::Done => {
                    self.stage = Stage::Finished;
                    Action::Finish(self.fault)
                },
                _ => Action::Rejected,
            },
            _ => Action::Finish(self.fault),
        }
    }

    /// Takes the answer to the outstanding request and returns the next
    /// request. An event that does not answer the outstanding request is
    /// rejected and changes nothing.
    pub fn step(&mut self, event: Event) -> (action: Action)
        requires
            old(self)@.has_headroom(),
        ensures
            final(self)@ == old(self)@.transition(event).model,
            action == old(self)@.transition(event).action,
            final(self)@.wf(),
    {
        let action = match self.phase() {
            Phase::Init => self.init_step(event),
            Phase::Probing => self.probing_step(event),
            _ => self.closing_step(event),
        };
        proof {
            use_type_invariant(&*self);
        }
        action
    }
}

} // verus!
