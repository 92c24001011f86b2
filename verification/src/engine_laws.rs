//! What holds of every session: the invariants of the engine's state machine
//! and the consequences of its transition function, each proved from the
//! model in [`crate::engine`].

use crate::engine::{
    report_of, round_trip_ms, Action, EngineModel, Event, Fault, PingContext, Stage,
    MAX_ROUND_TRIP_MS,
};
use crate::packet::decoded;
use crate::transport::{first_datagram, rest_after_first, send_result_of, PeerAddress, SendError};
use vstd::prelude::*;

verus! {

/// No round trip exceeds what the clock can show.
pub proof fn lemma_round_trip_bound(arrival: u64, interval: u64, sequence: u16)
    ensures
        round_trip_ms(arrival, interval, sequence) <= MAX_ROUND_TRIP_MS,
{
    assert(interval * sequence >= 0) by (nonlinear_arith)
        requires
            0 <= interval,
            0 <= sequence,
    ;
}

/// Two states belong to one session: they agree on the configuration.
pub open spec fn same_session(before: EngineModel, after: EngineModel) -> bool {
    &&& after.count == before.count
    &&& after.interval == before.interval
    &&& after.deadline == before.deadline
    &&& after.timeout == before.timeout
    &&& after.packet_size == before.packet_size
    &&& after.ttl == before.ttl
    &&& after.dest == before.dest
    &&& after.identifier == before.identifier
}

proof fn lemma_accept_keeps_session(
    model: EngineModel,
    message: Seq<u8>,
    peer: PeerAddress,
    ttl: u8,
    arrival: u64,
)
    requires
        model.wf(),
        model.may_take_datagram(),
    ensures
        model.accept(message, peer, ttl, arrival).model.wf(),
        same_session(model, model.accept(message, peer, ttl, arrival).model),
{
    match decoded(message) {
        Some(reply) => {
            lemma_round_trip_bound(arrival, model.interval, reply.sequence);
        },
        None => {},
    }
}

proof fn lemma_consume_keeps_session(model: EngineModel)
    requires
        model.wf(),
        model.may_take_datagram(),
    ensures
        model.consume().model.wf(),
        same_session(model, model.consume().model),
{
    let rest = EngineModel { pending: rest_after_first(model.pending), ..model };
    match first_datagram(model.pending) {
        Some((payload, ttl, source)) => {
            lemma_accept_keeps_session(rest, payload, PeerAddress::V4(source), ttl, model.arrival);
        },
        None => {},
    }
}

proof fn lemma_await_keeps_session(model: EngineModel)
    requires
        model.wf(),
        model.may_take_datagram(),
    ensures
        model.await_datagram().model.wf(),
        same_session(model, model.await_datagram().model),
{
    if model.pending.len() != 0 {
        lemma_consume_keeps_session(model);
    }
}

/// Every step leads from a state of a session to a state of a session, and
/// never touches the configuration.
pub proof fn law_step_keeps_session(model: EngineModel, event: Event)
    requires
        model.wf(),
    ensures
        model.transition(event).model.wf(),
        same_session(model, model.transition(event).model),
{
    match model.stage {
        Stage::TakingTimer => {
            lemma_await_keeps_session(model);
        },
        Stage::Sending => {
            lemma_await_keeps_session(
                EngineModel { stats: model.stats.with_transmission(), ..model },
            );
        },
        Stage::Receiving => {
            match event {
                Event::Message { bytes, peer, ttl, elapsed } => {
                    lemma_accept_keeps_session(model, bytes@, peer, ttl, elapsed);
                },
                Event::Raw { bytes, elapsed } => {
                    lemma_consume_keeps_session(
                        EngineModel { pending: model.pending + bytes@, arrival: elapsed, ..model },
                    );
                },
                _ => {},
            }
        },
        _ => {},
    }
}

/// In every state that a session can reach, by whatever events in whatever
/// order, the configuration is the one it began with, and a session with a
/// reply limit holds no more replies than its limit.
pub proof fn law_sessions_stay_within_limits(
    context: PingContext,
    identifier: u16,
    events: Seq<Event>,
)
    requires
        context.valid(),
    ensures
        ({
            let begun = EngineModel::initial(context, identifier);
            let reached = begun.after(events);
            &&& reached.wf()
            &&& same_session(begun, reached)
            &&& reached.count matches Some(limit) ==> reached.stats.received() <= limit
        }),
    decreases events.len(),
{
    let begun = EngineModel::initial(context, identifier);
    if events.len() > 0 {
        law_sessions_stay_within_limits(context, identifier, events.drop_last());
        law_step_keeps_session(begun.after(events.drop_last()), events.last());
    }
}

/// Probes are numbered in the order they are sent: a request to send carries
/// the number of probes sent before it, wrapped to sixteen bits, and the first
/// probe of a session carries zero. The count of probes grows by one when a
/// send succeeded or failed for a moment only, and at no other step.
pub proof fn law_probes_are_numbered_in_order(model: EngineModel, event: Event)
    requires
        model.wf(),
    ensures
        ({
            let step = model.transition(event);
            &&& step.action is Send ==> step.action == (Action::Send {
                sequence: (model.stats.transmitted % 0x1_0000) as u16,
            }) && (model.stage is Arming || model.stage is TakingTimer)
            &&& step.action is Send && model.stage is Arming ==> step.action == (Action::Send {
                sequence: 0,
            })
            &&& step.action is Send ==> step.model.stats == model.stats
            &&& if (model.stage is FirstSend || model.stage is Sending) && (event matches Event::Sent(
                outcome,
            ) && (send_result_of(outcome) is Ok || send_result_of(outcome) == Err::<
                (),
                SendError,
            >(SendError::Transient))) {
                step.model.stats.transmitted == model.stats.transmitted + 1
            } else {
                step.model.stats.transmitted == model.stats.transmitted
            }
        }),
{
}

/// A session bounded by a reply count ends its loop once that many replies
/// have come: the continuation test then fails whatever the flags and the
/// clock say, and the next request is to release the resources.
pub proof fn law_reply_limit_ends_probing(
    model: EngineModel,
    limit: u16,
    stop_requested: bool,
    elapsed: u64,
)
    requires
        model.stage is Polling,
        model.count == Some(limit),
        model.stats.received() >= limit,
    ensures
        model.transition(Event::Polled { stop_requested, elapsed }) == model.goto(
            Stage::Releasing,
            Action::Release,
        ),
{
}

/// The timer flag is read, and a probe sent, only after a continuation test
/// that passed: inside the loop the stage that reads the timer is entered
/// from the top of the loop alone, and a probe is requested from that stage
/// alone.
pub proof fn law_probe_follows_passed_test(model: EngineModel, event: Event)
    requires
        model.wf(),
    ensures
        ({
            let step = model.transition(event);
            &&& step.model.stage is TakingTimer && !(model.stage is TakingTimer) ==> model.stage
                is Polling && (event matches Event::Polled { stop_requested, elapsed }
                && model.may_continue(stop_requested, elapsed))
            &&& step.model.stage is Sending && !(model.stage is Sending) ==> model.stage
                is TakingTimer
        }),
{
}

/// A stop request seen at the top of the loop ends the loop at once: the
/// next request is to release the resources, and the statistics stand as
/// they were.
pub proof fn law_stop_request_ends_loop(model: EngineModel, elapsed: u64)
    requires
        model.stage is Polling,
    ensures
        model.transition(Event::Polled { stop_requested: true, elapsed }) == model.goto(
            Stage::Releasing,
            Action::Release,
        ),
{
}

/// A receive that is under way is the last before the flags are looked at
/// again. Whatever answers it, the engine asks next to poll, to print the
/// reply that came and then to poll, or to release; it never asks for a
/// second receive or for a send first.
pub proof fn law_receive_returns_to_poll(model: EngineModel, event: Event, printed: Event)
    requires
        model.stage is Receiving,
    ensures
        ({
            let step = model.transition(event);
            &&& step.action is Poll || step.action is Reply || step.action is Release
                || step.action is Rejected
            &&& step.action is Poll ==> step.model.stage is Polling
            &&& step.action is Release ==> step.model.stage is Releasing
            &&& step.action is Rejected ==> step.model == model
            &&& step.action is Reply ==> step.model.stage is Printing && (step.model.transition(
                printed,
            ).action is Poll || step.model.transition(printed).action is Rejected)
        }),
{
}

/// Once the loop has ended it stays ended: from then on the engine asks
/// only to print the summary or to finish, or turns the event away, and
/// neither the statistics nor the fault on record change.
pub proof fn law_ended_loop_stays_ended(model: EngineModel, event: Event)
    requires
        model.phase() is Draining || model.phase() is Reporting || model.phase() is Done,
    ensures
        ({
            let step = model.transition(event);
            &&& step.model.phase() is Draining || step.model.phase() is Reporting
                || step.model.phase() is Done
            &&& step.action is Summarize || step.action is Finish || step.action is Rejected
            &&& step.model.stats == model.stats
            &&& step.model.fault == model.fault
        }),
{
}

/// The end of the loop is final. When the continuation test fails, because
/// a stop was requested, the reply limit is reached or the deadline has
/// passed, then whatever events follow, the session never returns to the
/// loop: no further probe is sent and no further reply counted, and the
/// statistics that the summary will show are those that stood at the test.
pub proof fn law_failed_test_is_final(
    model: EngineModel,
    stop_requested: bool,
    elapsed: u64,
    later: Seq<Event>,
)
    requires
        model.stage is Polling,
        !model.may_continue(stop_requested, elapsed),
    ensures
        ({
            let ended = model.transition(Event::Polled { stop_requested, elapsed }).model;
            let reached = ended.after(later);
            &&& reached.phase() is Draining || reached.phase() is Reporting || reached.phase()
                is Done
            &&& reached.stats == model.stats
        }),
    decreases later.len(),
{
    let ended = model.transition(Event::Polled { stop_requested, elapsed }).model;
    if later.len() > 0 {
        law_failed_test_is_final(model, stop_requested, elapsed, later.drop_last());
        law_ended_loop_stays_ended(ended.after(later.drop_last()), later.last());
    }
}

/// However the loop ended, once the resources are released the summary is
/// asked for with the statistics as they stand, and after it the session ends
/// with the fault that ended the loop, if any. The one exception is a first
/// probe refused for want of permission: the session then ends without a
/// summary.
pub proof fn law_release_leads_to_summary(model: EngineModel, elapsed: u64)
    requires
        model.stage is Releasing,
    ensures
        ({
            let step = model.transition(Event::Released { elapsed });
            if model.fault == Some(Fault::Forbidden) {
                step == model.goto(Stage::Finished, Action::Finish(model.fault))
            } else {
                &&& step == model.goto(
                    Stage::Summarizing,
                    Action::Summarize(report_of(model.stats, elapsed)),
                )
                &&& step.model.transition(Event::Done) == model.goto(
                    Stage::Finished,
                    Action::Finish(model.fault),
                )
            }
        }),
{
}

/// A message that does not decode as an echo reply leaves the statistics as
/// they were and asks for no reply line; the loop goes on at its top.
pub proof fn law_malformed_message_is_ignored(
    model: EngineModel,
    bytes: Vec<u8>,
    peer: PeerAddress,
    ttl: u8,
    elapsed: u64,
)
    requires
        model.stage is Receiving,
        decoded(bytes@) is None,
    ensures
        model.transition(Event::Message { bytes, peer, ttl, elapsed }) == model.goto(
            Stage::Polling,
            Action::Poll,
        ),
{
}

/// The count of replies grows by one at exactly the steps that ask for a
/// reply line, and those are steps at which a message decoded as an echo
/// reply; at every other step the samples stay as they were.
pub proof fn law_replies_are_counted_when_printed(model: EngineModel, event: Event)
    ensures
        ({
            let step = model.transition(event);
            if step.action is Reply {
                &&& step.model.stats.received() == model.stats.received() + 1
                &&& step.model.stats.samples.drop_last() == model.stats.samples
                &&& step.action->Reply_0.round_trip_ms == step.model.stats.samples.last()
                &&& model.stage is TakingTimer || model.stage is Sending || model.stage
                    is Receiving
                &&& match event {
                    Event::Message { bytes, .. } => decoded(bytes@) is Some,
                    Event::Raw { bytes, .. } => first_datagram(model.pending + bytes@) matches Some(
                        first,
                    ) && decoded(first.0) is Some,
                    _ => first_datagram(model.pending) matches Some(first) && decoded(first.0)
                        is Some,
                }
            } else {
                step.model.stats.samples == model.stats.samples
            }
        }),
{
    let step = model.transition(event);
    if step.action is Reply {
        assert(step.model.stats.samples.drop_last() =~= model.stats.samples);
    }
}

} // verus!
