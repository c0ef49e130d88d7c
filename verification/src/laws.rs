//! What holds of whole sessions, whatever happens in them.
use crate::close_code::{close_code_number, close_code_of};
use crate::inspect::{model_in_bytes, usage_in_text};
use crate::json::{parsed_bytes, Json};
use crate::message::{
    to_downstream, to_upstream, CloseFrameView, DownstreamView, UpstreamView, NORMAL_CLOSURE,
};
use crate::model::{
    newest_usage, or_dash, usage_in_message, ActionView, EventView, PhaseView, SessionView,
    BAD_GATEWAY, BAD_REQUEST, MESSAGE_TOO_BIG, SWITCHING_PROTOCOLS,
};
use crate::report::{error_message, failure_close};
use crate::text::oversize_error_text;
use vstd::prelude::*;

verus! {

/// The state of a session after some events and the actions that it answered
/// them with, or `None` where one of them did not answer what the session was
/// waiting for.
pub open spec fn run(start: SessionView, events: Seq<EventView>) -> Option<
    (SessionView, Seq<ActionView>),
>
    decreases events.len(),
{
    if events.len() == 0 {
        Some((start, Seq::empty()))
    } else {
        match run(start, events.drop_last()) {
            Some((state, actions)) => match state.next(events.last()) {
                Some((next, action)) => Some((next, actions.push(action))),
                None => None,
            },
            None => None,
        }
    }
}

/// The messages that some actions send to upstream.
pub open spec fn sent_upstream(actions: Seq<ActionView>) -> Seq<UpstreamView>
    decreases actions.len(),
{
    if actions.len() == 0 {
        Seq::empty()
    } else {
        let before = sent_upstream(actions.drop_last());
        match actions.last() {
            ActionView::SendUpstream(message) => before.push(message),
            _ => before,
        }
    }
}

/// The messages that some actions send to the client.
pub open spec fn sent_downstream(actions: Seq<ActionView>) -> Seq<DownstreamView>
    decreases actions.len(),
{
    if actions.len() == 0 {
        Seq::empty()
    } else {
        let before = sent_downstream(actions.drop_last());
        match actions.last() {
            ActionView::SendDownstream(message) => before.push(message),
            _ => before,
        }
    }
}

/// The payloads for which some actions connect to upstream.
pub open spec fn connected_for(actions: Seq<ActionView>) -> Seq<Seq<u8>>
    decreases actions.len(),
{
    if actions.len() == 0 {
        Seq::empty()
    } else {
        let before = connected_for(actions.drop_last());
        match actions.last() {
            ActionView::Connect(payload) => before.push(payload),
            _ => before,
        }
    }
}

/// The first data message of the client.
pub open spec fn first_request(events: Seq<EventView>) -> Option<DownstreamView>
    decreases events.len(),
{
    if events.len() == 0 {
        None
    } else {
        match first_request(events.drop_last()) {
            Some(message) => Some(message),
            None => match events.last() {
                EventView::DownstreamMessage(message) => if message.payload() is Some {
                    Some(message)
                } else {
                    None
                },
                _ => None,
            },
        }
    }
}

/// Whether upstream was reached.
pub open spec fn reached(events: Seq<EventView>) -> bool {
    exists|i: int| 0 <= i < events.len() && (#[trigger] events[i]) is Connected
}

/// What a transparent relay sends upstream: once upstream is reached the first
/// request, then each message of the client in turn, and a normal closure when
/// the client is gone without one.
pub open spec fn owed_upstream(events: Seq<EventView>) -> Seq<UpstreamView>
    decreases events.len(),
{
    if events.len() == 0 {
        Seq::empty()
    } else {
        let earlier = events.drop_last();
        let before = owed_upstream(earlier);
        match events.last() {
            EventView::Connected(_) => match first_request(earlier) {
                Some(request) => before.push(to_upstream(request)),
                None => before,
            },
            EventView::DownstreamMessage(message) => if reached(earlier) {
                before.push(to_upstream(message))
            } else {
                before
            },
            EventView::DownstreamEnded => if reached(earlier) {
                before.push(UpstreamView::normal_closure())
            } else {
                before
            },
            _ => before,
        }
    }
}

/// What a transparent relay sends to the client: each message of upstream in
/// turn, and a normal closure when upstream is gone without one.
pub open spec fn owed_downstream(events: Seq<EventView>) -> Seq<DownstreamView>
    decreases events.len(),
{
    if events.len() == 0 {
        Seq::empty()
    } else {
        let before = owed_downstream(events.drop_last());
        match events.last() {
            EventView::UpstreamMessage(message) => before.push(to_downstream(message)),
            EventView::UpstreamEnded => before.push(
                DownstreamView::closing(NORMAL_CLOSURE, Seq::empty()),
            ),
            _ => before,
        }
    }
}

/// The usage that the last of some events to report one reports.
pub open spec fn last_usage(events: Seq<EventView>) -> Option<(i64, i64)>
    decreases events.len(),
{
    if events.len() == 0 {
        None
    } else {
        let before = last_usage(events.drop_last());
        match events.last() {
            EventView::UpstreamMessage(message) => newest_usage(before, usage_in_message(message)),
            _ => before,
        }
    }
}

/// Whether the client was sent a wrapped error of this status, as the last thing
/// it was sent after `before`.
pub open spec fn error_follows(
    before: Seq<DownstreamView>,
    sent: Seq<DownstreamView>,
    status: u16,
) -> bool {
    exists|error: Seq<char>| sent == before.push(#[trigger] error_message(status, error))
}

/// Whether the client was sent a wrapped error of this status and then closed,
/// as the last things it was sent after `before`.
pub open spec fn report_follows(
    before: Seq<DownstreamView>,
    sent: Seq<DownstreamView>,
    status: u16,
) -> bool {
    exists|error: Seq<char>|
        sent == before.push(#[trigger] error_message(status, error)).push(failure_close())
}

/// Whether the last things that the client was sent are a wrapped error of this
/// status and a close message.
pub open spec fn ends_with_report(sent: Seq<DownstreamView>, status: u16) -> bool {
    exists|before: Seq<DownstreamView>| #[trigger] report_follows(before, sent, status)
}

/// Whether an event is the outcome of a send.
pub open spec fn is_send_outcome(event: EventView) -> bool {
    event is Sent || event is SendFailed
}

/// Whether an event can be the outcome of an action.
pub open spec fn answers(event: EventView, action: ActionView) -> bool {
    match action {
        ActionView::ReceiveDownstream => event is DownstreamMessage || event is DownstreamFailed
            || event is DownstreamEnded,
        ActionView::ReceiveEither => event is DownstreamMessage || event is DownstreamFailed
            || event is DownstreamEnded || event is UpstreamMessage || event is UpstreamFailed
            || event is UpstreamEnded,
        ActionView::Connect(_) => event is Connected || event is ConnectFailed,
        ActionView::SendDownstream(_) | ActionView::SendUpstream(_) => is_send_outcome(event),
        ActionView::Finish(_) => false,
    }
}

/// A session never gets stuck: after an action it takes every outcome that the
/// action can have, and no other event.
pub proof fn outcomes_are_taken(state: SessionView, event: EventView, outcome: EventView)
    ensures
        state.next(event) matches Some((next, action)) ==> (next.next(outcome) is Some <==> answers(
            outcome,
            action,
        )),
{
}

/// A session that has just been started takes every outcome of reading the
/// client, and no other event.
pub proof fn first_outcomes_are_taken(limit: usize, outcome: EventView)
    ensures
        SessionView::started(limit).next(outcome) is Some <==> answers(
            outcome,
            ActionView::ReceiveDownstream,
        ),
{
}

/// A session that is over takes no further event.
pub proof fn over_is_over(state: SessionView, event: EventView)
    requires
        state.phase is Done,
    ensures
        state.next(event) is None,
{
}

/// Every session that was started keeps its invariant.
pub proof fn started_sessions_are_well_formed(limit: usize, events: Seq<EventView>)
    ensures
        run(SessionView::started(limit), events) matches Some((state, _)) ==> state.well_formed()
            && state.limit == limit,
    decreases events.len(),
{
    if events.len() > 0 {
        started_sessions_are_well_formed(limit, events.drop_last());
    }
}

/// A session ends exactly once: it is over when, and only when, its last action
/// is to finish, and no action before that is.
pub proof fn sessions_finish_once(limit: usize, events: Seq<EventView>)
    ensures
        run(SessionView::started(limit), events) matches Some((state, actions)) ==> {
            &&& actions.len() == events.len()
            &&& state.phase is Done <==> actions.len() > 0 && actions.last() is Finish
            &&& forall|i: int|
                0 <= i < actions.len() - 1 ==> !((#[trigger] actions[i]) is Finish)
        },
    decreases events.len(),
{
    if events.len() > 0 {
        sessions_finish_once(limit, events.drop_last());
    }
}

/// The usage that is recorded is that of the last completed response that
/// upstream reported, and of nothing else.
pub proof fn usage_is_of_last_completion(limit: usize, events: Seq<EventView>)
    ensures
        run(SessionView::started(limit), events) matches Some((state, actions)) ==> {
            &&& state.usage == last_usage(events)
            &&& actions.len() > 0 ==> (actions.last() matches ActionView::Finish(Some(record))
                ==> record.usage == last_usage(events))
        },
    decreases events.len(),
{
    if events.len() > 0 {
        usage_is_of_last_completion(limit, events.drop_last());
    }
}

/// What a session waits for tells what happened before: nothing was asked yet,
/// upstream is not reached yet, or it is.
spec fn phase_fits(phase: PhaseView, events: Seq<EventView>) -> bool {
    match phase {
        PhaseView::Waiting | PhaseView::Ponging | PhaseView::Leaving => {
            &&& first_request(events) is None
            &&& !reached(events)
        },
        PhaseView::Refusing { .. } => !reached(events),
        PhaseView::Connecting { first } => {
            &&& first_request(events) == Some(first)
            &&& !reached(events)
        },
        PhaseView::Opening
        | PhaseView::Relaying
        | PhaseView::ForwardingUp { .. }
        | PhaseView::ForwardingDown { .. }
        | PhaseView::Closing => reached(events),
        _ => true,
    }
}

/// Upstream is reached once it was reached before or is reached now.
proof fn reached_now_or_before(events: Seq<EventView>)
    requires
        events.len() > 0,
    ensures
        reached(events) <==> reached(events.drop_last()) || events.last() is Connected,
{
    let earlier = events.drop_last();
    if reached(earlier) {
        let i = choose|i: int| 0 <= i < earlier.len() && (#[trigger] earlier[i]) is Connected;
        assert(events[i] is Connected);
    }
    if events.last() is Connected {
        assert(events[events.len() - 1] is Connected);
    }
    if reached(events) && !(events.last() is Connected) {
        let i = choose|i: int| 0 <= i < events.len() && (#[trigger] events[i]) is Connected;
        assert(earlier[i] is Connected);
    }
}

proof fn phases_fit(limit: usize, events: Seq<EventView>)
    ensures
        run(SessionView::started(limit), events) matches Some((state, _)) ==> phase_fits(
            state.phase,
            events,
        ),
    decreases events.len(),
{
    if events.len() > 0 {
        phases_fit(limit, events.drop_last());
        reached_now_or_before(events);
    }
}

/// The relay is transparent towards upstream: upstream is sent the first
/// request and then every message of the client, each as it came, in order, and
/// nothing else but the normal closure of a client that is gone.
pub proof fn client_messages_reach_upstream(limit: usize, events: Seq<EventView>)
    ensures
        run(SessionView::started(limit), events) matches Some((_, actions)) ==> sent_upstream(
            actions,
        ) == owed_upstream(events),
    decreases events.len(),
{
    if events.len() > 0 {
        let earlier = events.drop_last();
        client_messages_reach_upstream(limit, earlier);
        phases_fit(limit, earlier);
        if let Some((state, actions)) = run(SessionView::started(limit), earlier) {
            if let Some((_, action)) = state.next(events.last()) {
                assert(actions.push(action).drop_last() == actions);
            }
        }
    }
}

/// What a session waits for tells whether upstream was contacted.
proof fn phase_tells_contact(limit: usize, events: Seq<EventView>)
    ensures
        run(SessionView::started(limit), events) matches Some((state, actions)) ==> {
            let asked = connected_for(actions).len();
            match state.phase {
                PhaseView::Waiting
                | PhaseView::Ponging
                | PhaseView::Leaving
                | PhaseView::Refusing { .. } => asked == 0,
                PhaseView::Connecting { .. }
                | PhaseView::Opening
                | PhaseView::Relaying
                | PhaseView::ForwardingUp { .. }
                | PhaseView::ForwardingDown { .. }
                | PhaseView::Closing => asked == 1,
                _ => asked <= 1,
            }
        },
    decreases events.len(),
{
    if events.len() > 0 {
        let earlier = events.drop_last();
        phase_tells_contact(limit, earlier);
        if let Some((state, actions)) = run(SessionView::started(limit), earlier) {
            if let Some((_, action)) = state.next(events.last()) {
                assert(actions.push(action).drop_last() == actions);
            }
        }
    }
}

/// Upstream is contacted at most once in a session, for the first data message
/// of the client, and exactly if that is within the limit; the recorded model is
/// the one that this message names. Where upstream is not contacted nothing is
/// sent there, and no model or account is recorded.
pub proof fn upstream_is_asked_once(limit: usize, events: Seq<EventView>)
    ensures
        run(SessionView::started(limit), events) matches Some((state, actions)) ==> {
            let asked = connected_for(actions);
            &&& asked.len() <= 1
            &&& asked.len() == 0 ==> {
                &&& state.model == "-"@
                &&& state.account == "-"@
                &&& sent_upstream(actions).len() == 0
            }
            &&& asked.len() == 1 ==> {
                &&& first_request(events) matches Some(request)
                &&& request.payload() == Some(asked[0])
                &&& asked[0].len() <= limit
                &&& state.model == or_dash(model_in_bytes(asked[0]))
            }
            &&& first_request(events) matches Some(request) ==> (request.payload()->0.len() <= limit
                ==> asked.len() == 1)
        },
    decreases events.len(),
{
    if events.len() > 0 {
        let earlier = events.drop_last();
        upstream_is_asked_once(limit, earlier);
        phases_fit(limit, earlier);
        started_sessions_are_well_formed(limit, earlier);
        phase_tells_contact(limit, earlier);
        if let Some((state, actions)) = run(SessionView::started(limit), earlier) {
            if let Some((_, action)) = state.next(events.last()) {
                assert(actions.push(action).drop_last() == actions);
            }
        }
    }
}

/// A session that ends without a record is one in which the client left before
/// it asked anything: upstream was not contacted.
pub proof fn unrecorded_sessions_ask_nothing(limit: usize, events: Seq<EventView>)
    ensures
        run(SessionView::started(limit), events) matches Some((_, actions)) ==> (actions.len() > 0
            && actions.last() == ActionView::Finish(None) ==> {
            &&& first_request(events) is None
            &&& connected_for(actions).len() == 0
            &&& sent_upstream(actions).len() == 0
        }),
{
    if events.len() > 0 {
        let earlier = events.drop_last();
        upstream_is_asked_once(limit, earlier);
        phase_tells_contact(limit, earlier);
        phases_fit(limit, earlier);
        if let Some((state, actions)) = run(SessionView::started(limit), earlier) {
            if let Some((_, action)) = state.next(events.last()) {
                assert(actions.push(action).drop_last() == actions);
            }
        }
    }
}

/// A session fails exactly where an event is a failure, and its client is then
/// sent the wrapped error of that failure.
pub proof fn failures_are_reported(state: SessionView, event: EventView)
    ensures
        match state.failure(event) {
            Some((status, error)) => state.next(event) == Some(state.failed(status, error)),
            None => state.next(event) matches Some((next, _)) ==> !(next.phase is Reporting),
        },
{
}

/// Whether an event leaves a client that has not asked anything yet where it is:
/// a ping, a pong, or a message to it that was sent.
pub open spec fn is_idle(event: EventView) -> bool {
    match event {
        EventView::DownstreamMessage(message) => message is Ping || message is Pong,
        EventView::Sent => true,
        _ => false,
    }
}

/// Whether all events leave the client where it is.
pub open spec fn all_idle(events: Seq<EventView>) -> bool {
    forall|i: int| 0 <= i < events.len() ==> is_idle(#[trigger] events[i])
}

/// The pongs that the pings among some events are answered with.
pub open spec fn owed_pongs(events: Seq<EventView>) -> Seq<DownstreamView>
    decreases events.len(),
{
    if events.len() == 0 {
        Seq::empty()
    } else {
        let before = owed_pongs(events.drop_last());
        match events.last() {
            EventView::DownstreamMessage(DownstreamView::Ping(payload)) => before.push(
                DownstreamView::Pong(payload),
            ),
            _ => before,
        }
    }
}

proof fn owed_pongs_are_pongs(events: Seq<EventView>)
    ensures
        forall|i: int|
            0 <= i < owed_pongs(events).len() ==> (#[trigger] owed_pongs(events)[i]) is Pong,
    decreases events.len(),
{
    if events.len() > 0 {
        owed_pongs_are_pongs(events.drop_last());
    }
}

/// All events are idle if those before the last are, and the last is.
proof fn all_idle_now_and_before(events: Seq<EventView>)
    requires
        events.len() > 0,
    ensures
        all_idle(events) <==> all_idle(events.drop_last()) && is_idle(events.last()),
{
    let earlier = events.drop_last();
    if all_idle(events) {
        assert forall|i: int| 0 <= i < earlier.len() implies is_idle(#[trigger] earlier[i]) by {
            assert(is_idle(events[i]));
        }
        assert(is_idle(events[events.len() - 1]));
    }
    if all_idle(earlier) && is_idle(events.last()) {
        assert forall|i: int| 0 <= i < events.len() implies is_idle(#[trigger] events[i]) by {
            if i < earlier.len() {
                assert(is_idle(earlier[i]));
            }
        }
    }
}

/// A session waits for a first request, or answers a ping, exactly as long as
/// all events are idle, and has sent the pongs it owes; one that echoes a close
/// message has just received it.
proof fn idle_sessions_wait(limit: usize, events: Seq<EventView>)
    ensures
        run(SessionView::started(limit), events) matches Some((state, actions)) ==> {
            let sent = sent_downstream(actions);
            &&& state.phase is Waiting || state.phase is Ponging <==> all_idle(events)
            &&& all_idle(events) ==> sent == owed_pongs(events)
            &&& state.phase is Leaving ==> {
                &&& events.len() > 0
                &&& all_idle(events.drop_last())
                &&& events.last() matches EventView::DownstreamMessage(message)
                &&& message is Close
                &&& sent == owed_pongs(events).push(message)
            }
            &&& state.phase matches PhaseView::Connecting { first } ==> {
                &&& events.len() > 0
                &&& all_idle(events.drop_last())
                &&& events.last() == EventView::DownstreamMessage(first)
                &&& sent == owed_pongs(events)
            }
        },
    decreases events.len(),
{
    if events.len() > 0 {
        let earlier = events.drop_last();
        idle_sessions_wait(limit, earlier);
        all_idle_now_and_before(events);
        if let Some((state, actions)) = run(SessionView::started(limit), earlier) {
            if let Some((_, action)) = state.next(events.last()) {
                assert(actions.push(action).drop_last() == actions);
            }
        }
    }
}

/// The request that a session takes to upstream is the message that the client
/// sent last, as it came; it is a data message within the limit, all that came
/// before it are pings and pongs, and the client was sent the pongs it is owed
/// and nothing else.
pub proof fn taken_request_is_first_data(limit: usize, events: Seq<EventView>)
    ensures
        run(SessionView::started(limit), events) matches Some((state, actions)) ==> (state.phase
            matches PhaseView::Connecting { first } ==> {
            &&& events.len() > 0
            &&& events.last() == EventView::DownstreamMessage(first)
            &&& first.payload() matches Some(payload)
            &&& payload.len() <= limit
            &&& all_idle(events.drop_last())
            &&& sent_downstream(actions) == owed_pongs(events)
        }),
{
    idle_sessions_wait(limit, events);
    started_sessions_are_well_formed(limit, events);
}

/// A session that waits for a first request takes any data message within the
/// limit to upstream, whatever its bytes are.
pub proof fn any_data_within_limit_is_taken(
    state: SessionView,
    message: DownstreamView,
    payload: Seq<u8>,
)
    requires
        state.phase is Waiting,
        message.payload() == Some(payload),
        payload.len() <= state.limit,
    ensures
        state.next(EventView::DownstreamMessage(message)) matches Some((next, action)) && {
            &&& next.phase == PhaseView::Connecting { first: message }
            &&& action == ActionView::Connect(payload)
        },
{
}

/// Whether the client's stream ended before it asked anything.
pub open spec fn ended_early(events: Seq<EventView>) -> bool {
    &&& events.len() > 0
    &&& all_idle(events.drop_last())
    &&& events.last() is DownstreamEnded
}

/// Whether the client closed before it asked anything, and the echo of its close
/// message was sent or could not be sent.
pub open spec fn closed_early(events: Seq<EventView>) -> bool {
    &&& events.len() > 1
    &&& all_idle(events.drop_last().drop_last())
    &&& events.drop_last().last() matches EventView::DownstreamMessage(message)
    &&& message is Close
    &&& is_send_outcome(events.last())
}

/// A session ends without a record exactly where the client's stream ends, or a
/// close message of the client arrives, before any data message. Where the
/// stream ended, all that the client was sent are the pongs it is owed; where it
/// closed, these and then its own close message.
pub proof fn early_leavers_are_not_recorded(limit: usize, events: Seq<EventView>)
    ensures
        run(SessionView::started(limit), events) matches Some((_, actions)) ==> {
            let sent = sent_downstream(actions);
            &&& actions.len() > 0 && actions.last() == ActionView::Finish(None) <==> ended_early(
                events,
            ) || closed_early(events)
            &&& ended_early(events) ==> {
                &&& sent == owed_pongs(events)
                &&& forall|i: int| 0 <= i < sent.len() ==> (#[trigger] sent[i]) is Pong
            }
            &&& closed_early(events) ==> (events.drop_last().last()
                matches EventView::DownstreamMessage(message) && sent == owed_pongs(events).push(
                message,
            ))
        },
{
    owed_pongs_are_pongs(events);
    if events.len() > 0 {
        let earlier = events.drop_last();
        idle_sessions_wait(limit, earlier);
        if earlier.len() > 0 {
            idle_sessions_wait(limit, earlier.drop_last());
        }
        if let Some((state, actions)) = run(SessionView::started(limit), earlier) {
            if let Some((_, action)) = state.next(events.last()) {
                assert(actions.push(action).drop_last() == actions);
            }
        }
    }
}

/// What the client was told by now of a failure.
spec fn told_of_failure(state: SessionView, actions: Seq<ActionView>) -> bool {
    let sent = sent_downstream(actions);
    match state.phase {
        PhaseView::Reporting { status } => exists|before: Seq<DownstreamView>| #[trigger]
            error_follows(before, sent, status),
        PhaseView::Disconnecting { status } => ends_with_report(sent, status),
        PhaseView::Done => actions.len() > 0 && match actions.last() {
            ActionView::Finish(Some(record)) => {
                &&& record == state.record(record.status)
                &&& record.status == SWITCHING_PROTOCOLS || ends_with_report(sent, record.status)
            },
            last => last == ActionView::Finish(None),
        },
        _ => true,
    }
}

proof fn clients_are_told(limit: usize, events: Seq<EventView>)
    ensures
        run(SessionView::started(limit), events) matches Some((state, actions)) ==> told_of_failure(
            state,
            actions,
        ),
    decreases events.len(),
{
    if events.len() > 0 {
        let earlier = events.drop_last();
        clients_are_told(limit, earlier);
        if let Some((state, actions)) = run(SessionView::started(limit), earlier) {
            if let Some((next, action)) = state.next(events.last()) {
                assert(actions.push(action).drop_last() == actions);
                let sent = sent_downstream(actions);
                match next.phase {
                    PhaseView::Reporting { status } => {
                        let error = choose|error: Seq<char>|
                            action == ActionView::SendDownstream(
                                #[trigger] error_message(status, error),
                            );
                        assert(sent_downstream(actions.push(action)) == sent.push(
                            error_message(status, error),
                        ));
                        assert(error_follows(sent, sent_downstream(actions.push(action)), status));
                    },
                    PhaseView::Disconnecting { status } => {
                        let before = choose|before: Seq<DownstreamView>| #[trigger]
                            error_follows(before, sent, status);
                        assert(report_follows(
                            before,
                            sent_downstream(actions.push(action)),
                            status,
                        ));
                    },
                    _ => {},
                }
            }
        }
    }
}

/// A session that is recorded under any status but that of a relayed session
/// was answered: the last things its client was sent are a wrapped error of
/// that status and a close message. The record gives the model, the account and
/// the usage of the session.
pub proof fn failed_sessions_are_answered(limit: usize, events: Seq<EventView>)
    ensures
        run(SessionView::started(limit), events) matches Some((state, actions)) ==> (actions.len()
            > 0 ==> (actions.last() matches ActionView::Finish(Some(record)) ==> {
            &&& record == state.record(record.status)
            &&& record.status == SWITCHING_PROTOCOLS || ends_with_report(
                sent_downstream(actions),
                record.status,
            )
        })),
{
    clients_are_told(limit, events);
    sessions_finish_once(limit, events);
}

/// Whether a failure of this status fits how far the session came.
pub open spec fn status_fits(status: u16, events: Seq<EventView>, actions: Seq<ActionView>) -> bool {
    if reached(events) {
        status == BAD_GATEWAY
    } else if connected_for(actions).len() == 0 {
        status == BAD_REQUEST
    } else {
        exists|i: int| 0 <= i < events.len() && connect_failed_with(#[trigger] events[i], status)
    }
}

/// Whether an event says that upstream was not reached, with this status.
pub open spec fn connect_failed_with(event: EventView, status: u16) -> bool {
    event matches EventView::ConnectFailed { status: given, .. } && given == status
}

/// A status that fits keeps to fit when the outcome of a send is added.
proof fn status_fits_after_send(
    status: u16,
    events: Seq<EventView>,
    actions: Seq<ActionView>,
    event: EventView,
    action: ActionView,
)
    requires
        status_fits(status, events, actions),
        event is Sent || event is SendFailed,
        !(action is Connect),
    ensures
        status_fits(status, events.push(event), actions.push(action)),
{
    let longer = events.push(event);
    assert(longer.drop_last() == events);
    assert(actions.push(action).drop_last() == actions);
    reached_now_or_before(longer);
    if !reached(events) && connected_for(actions).len() > 0 {
        let i = choose|i: int|
            0 <= i < events.len() && connect_failed_with(#[trigger] events[i], status);
        assert(connect_failed_with(longer[i], status));
    }
}

spec fn failure_fits(state: SessionView, events: Seq<EventView>, actions: Seq<ActionView>) -> bool {
    match state.phase {
        PhaseView::Reporting { status } => status_fits(status, events, actions),
        PhaseView::Disconnecting { status } => status_fits(status, events, actions),
        PhaseView::Done => actions.len() > 0 && (actions.last() matches ActionView::Finish(
            Some(record),
        ) ==> {
            ||| record.status == SWITCHING_PROTOCOLS && reached(events)
            ||| status_fits(record.status, events, actions)
        }),
        _ => true,
    }
}

proof fn failures_fit(limit: usize, events: Seq<EventView>)
    ensures
        run(SessionView::started(limit), events) matches Some((state, actions)) ==> failure_fits(
            state,
            events,
            actions,
        ),
    decreases events.len(),
{
    if events.len() > 0 {
        let earlier = events.drop_last();
        let event = events.last();
        failures_fit(limit, earlier);
        phases_fit(limit, earlier);
        phase_tells_contact(limit, earlier);
        reached_now_or_before(events);
        assert(earlier.push(event) == events);
        if let Some((state, actions)) = run(SessionView::started(limit), earlier) {
            if let Some((_, action)) = state.next(event) {
                assert(actions.push(action).drop_last() == actions);
                if let PhaseView::Reporting { status } = state.phase {
                    status_fits_after_send(status, earlier, actions, event, action);
                }
                if let PhaseView::Disconnecting { status } = state.phase {
                    status_fits_after_send(status, earlier, actions, event, action);
                }
                if let EventView::ConnectFailed { status, .. } = event {
                    assert(connect_failed_with(events[events.len() - 1], status));
                }
            }
        }
    }
}

/// The status of a record tells how far the session came: a session that was
/// relayed to its end and one that failed after upstream was reached have fixed
/// statuses, so has one that failed before upstream was contacted, and one that
/// failed in between has the status with which upstream was not reached.
pub proof fn status_tells_how_far(limit: usize, events: Seq<EventView>)
    ensures
        run(SessionView::started(limit), events) matches Some((_, actions)) ==> (actions.len() > 0
            ==> (actions.last() matches ActionView::Finish(Some(record)) ==> {
            ||| record.status == SWITCHING_PROTOCOLS && reached(events)
            ||| status_fits(record.status, events, actions)
        })),
{
    failures_fit(limit, events);
    sessions_finish_once(limit, events);
}

/// Whether the client of a session that was being relayed has been sent what it
/// is owed, and of a failure as much as it can have been told by now.
pub open spec fn client_is_served(
    state: SessionView,
    events: Seq<EventView>,
    actions: Seq<ActionView>,
) -> bool {
    let owed = owed_downstream(events);
    let sent = sent_downstream(actions);
    match state.phase {
        PhaseView::Reporting { status } => {
            &&& status == BAD_GATEWAY
            &&& error_follows(owed, sent, status)
        },
        PhaseView::Disconnecting { status } => {
            &&& status == BAD_GATEWAY
            &&& report_follows(owed, sent, status)
        },
        PhaseView::Done => {
            &&& actions.len() > 0
            &&& actions.last() matches ActionView::Finish(Some(record))
            &&& {
                ||| record.status == SWITCHING_PROTOCOLS && sent == owed
                ||| record.status == BAD_GATEWAY && report_follows(owed, sent, BAD_GATEWAY)
            }
        },
        _ => sent == owed,
    }
}

/// The relay is transparent towards the client: from the moment that messages
/// are relayed the client is sent every message of upstream, each as it came, in
/// order, and the normal closure of an upstream that is gone; after that come at
/// most a wrapped error and a close message, where the session failed.
pub proof fn upstream_messages_reach_client(start: SessionView, events: Seq<EventView>)
    requires
        start.phase is Relaying,
    ensures
        run(start, events) matches Some((state, actions)) ==> client_is_served(
            state,
            events,
            actions,
        ),
    decreases events.len(),
{
    if events.len() > 0 {
        let earlier = events.drop_last();
        upstream_messages_reach_client(start, earlier);
        relayed_stays_relayed(start, earlier);
        if let Some((state, actions)) = run(start, earlier) {
            if let Some((next, action)) = state.next(events.last()) {
                assert(actions.push(action).drop_last() == actions);
                let sent = sent_downstream(actions);
                if next.phase is Reporting {
                    let error = choose|error: Seq<char>|
                        action == ActionView::SendDownstream(
                            #[trigger] error_message(BAD_GATEWAY, error),
                        );
                    assert(sent_downstream(actions.push(action)) == sent.push(
                        error_message(BAD_GATEWAY, error),
                    ));
                }
            }
        }
    }
}

/// A session that is relayed does not fall back to waiting for a request.
proof fn relayed_stays_relayed(start: SessionView, events: Seq<EventView>)
    requires
        start.phase is Relaying,
    ensures
        run(start, events) matches Some((state, _)) ==> match state.phase {
            PhaseView::Relaying
            | PhaseView::ForwardingUp { .. }
            | PhaseView::ForwardingDown { .. }
            | PhaseView::Closing
            | PhaseView::Reporting { .. }
            | PhaseView::Disconnecting { .. }
            | PhaseView::Done => true,
            _ => false,
        },
    decreases events.len(),
{
    if events.len() > 0 {
        relayed_stays_relayed(start, events.drop_last());
    }
}

/// A session that takes some events and then others is one that takes them all.
proof fn runs_compose(start: SessionView, first: Seq<EventView>, rest: Seq<EventView>)
    ensures
        run(start, first + rest) == match run(start, first) {
            Some((middle, before)) => match run(middle, rest) {
                Some((end, after)) => Some((end, before + after)),
                None => None,
            },
            None => None,
        },
    decreases rest.len(),
{
    if rest.len() == 0 {
        assert(first + rest == first);
        if let Some((_, before)) = run(start, first) {
            assert(before + Seq::<ActionView>::empty() == before);
        }
    } else {
        runs_compose(start, first, rest.drop_last());
        assert((first + rest).drop_last() == first + rest.drop_last());
        assert((first + rest).last() == rest.last());
        if let Some((middle, before)) = run(start, first) {
            if let Some((end, after)) = run(middle, rest.drop_last()) {
                if let Some((_, action)) = end.next(rest.last()) {
                    assert((before + after).push(action) == before + after.push(action));
                }
            }
        }
    }
}

/// In a session that was started, the client is served from any moment on at
/// which messages are relayed.
pub proof fn clients_are_served_once_relayed(limit: usize, events: Seq<EventView>, since: int)
    requires
        0 <= since <= events.len(),
        run(SessionView::started(limit), events.take(since)) matches Some((state, _))
            && state.phase is Relaying,
    ensures
        run(SessionView::started(limit), events) matches Some((state, actions)) ==> client_is_served(
            state,
            events.skip(since),
            actions.skip(since),
        ),
{
    let start = SessionView::started(limit);
    let first = events.take(since);
    let rest = events.skip(since);
    assert(first + rest == events);
    runs_compose(start, first, rest);
    sessions_finish_once(limit, first);
    if let Some((middle, before)) = run(start, first) {
        upstream_messages_reach_client(middle, rest);
        if let Some((_, after)) = run(middle, rest) {
            assert((before + after).skip(since) == after);
        }
    }
}

/// What is read from the frames is for the record alone: two sessions that wait
/// for the same thing under the same limit take the same events and do the same,
/// whatever model, account and usage they know of, until they finish.
pub proof fn inspection_is_read_only(a: SessionView, b: SessionView, event: EventView)
    requires
        a.phase == b.phase,
        a.limit == b.limit,
    ensures
        match (a.next(event), b.next(event)) {
            (Some((next_a, action_a)), Some((next_b, action_b))) => {
                &&& next_a.phase == next_b.phase
                &&& next_a.limit == next_b.limit
                &&& action_a == action_b || (action_a is Finish && action_b is Finish)
            },
            (None, None) => true,
            _ => false,
        },
{
}

/// A first request that is larger than the limit is refused: the client is
/// closed for it, told the sizes in a wrapped error, and closed again, and the
/// session is recorded as a bad request, whether or not these messages can be
/// sent. Upstream is not contacted.
pub proof fn oversized_requests_are_refused(
    state: SessionView,
    request: DownstreamView,
    first: EventView,
    second: EventView,
    third: EventView,
)
    requires
        state.phase is Waiting,
        request.payload() matches Some(payload) && payload.len() > state.limit,
        is_send_outcome(first),
        is_send_outcome(second),
        is_send_outcome(third),
    ensures
        run(state, seq![EventView::DownstreamMessage(request), first, second, third]) == Some(
            (
                state.to(PhaseView::Done),
                seq![
                    ActionView::SendDownstream(
                        DownstreamView::closing(
                            MESSAGE_TOO_BIG,
                            "response.create frame exceeds configured limit"@,
                        ),
                    ),
                    ActionView::SendDownstream(
                        error_message(
                            BAD_REQUEST,
                            oversize_error_text(request.payload()->0.len(), state.limit as nat),
                        ),
                    ),
                    ActionView::SendDownstream(failure_close()),
                    ActionView::Finish(Some(state.record(BAD_REQUEST))),
                ],
            ),
        ),
{
    let e0 = EventView::DownstreamMessage(request);
    let all = seq![e0, first, second, third];
    assert(all.drop_last() == seq![e0, first, second]);
    assert(seq![e0, first, second].drop_last() == seq![e0, first]);
    assert(seq![e0, first].drop_last() == seq![e0]);
    assert(seq![e0].drop_last() == Seq::<EventView>::empty());
    reveal_with_fuel(run, 5);
    assert((run(state, all)->0).1 == seq![
        state.after_first_message(request).1,
        ActionView::SendDownstream(
            error_message(
                BAD_REQUEST,
                oversize_error_text(request.payload()->0.len(), state.limit as nat),
            ),
        ),
        ActionView::SendDownstream(failure_close()),
        ActionView::Finish(Some(state.record(BAD_REQUEST))),
    ]);
}

/// A ping that comes before the first request is answered with its own payload,
/// and the session then waits as before.
pub proof fn pings_are_answered(state: SessionView, payload: Seq<u8>)
    requires
        state.phase is Waiting,
    ensures
        run(
            state,
            seq![EventView::DownstreamMessage(DownstreamView::Ping(payload)), EventView::Sent],
        ) == Some(
            (
                state,
                seq![
                    ActionView::SendDownstream(DownstreamView::Pong(payload)),
                    ActionView::ReceiveDownstream,
                ],
            ),
        ),
{
    let ping = EventView::DownstreamMessage(DownstreamView::Ping(payload));
    assert(seq![ping, EventView::Sent].drop_last() == seq![ping]);
    assert(seq![ping].drop_last() == Seq::<EventView>::empty());
    reveal_with_fuel(run, 3);
    assert((run(state, seq![ping, EventView::Sent])->0).1 == seq![
        ActionView::SendDownstream(DownstreamView::Pong(payload)),
        ActionView::ReceiveDownstream,
    ]);
}

/// A close message of the client is forwarded and ends the relay: once it is sent
/// the session is over and recorded as relayed.
pub proof fn client_close_ends_the_relay(state: SessionView, message: DownstreamView)
    requires
        state.phase is Relaying,
        message is Close,
    ensures
        run(state, seq![EventView::DownstreamMessage(message), EventView::Sent]) == Some(
            (
                state.to(PhaseView::Done),
                seq![
                    ActionView::SendUpstream(to_upstream(message)),
                    ActionView::Finish(Some(state.record(SWITCHING_PROTOCOLS))),
                ],
            ),
        ),
{
    let close = EventView::DownstreamMessage(message);
    assert(seq![close, EventView::Sent].drop_last() == seq![close]);
    assert(seq![close].drop_last() == Seq::<EventView>::empty());
    reveal_with_fuel(run, 3);
    assert((run(state, seq![close, EventView::Sent])->0).1 == seq![
        ActionView::SendUpstream(to_upstream(message)),
        ActionView::Finish(Some(state.record(SWITCHING_PROTOCOLS))),
    ]);
}

/// A close message of upstream is forwarded and ends the relay: once it is sent
/// the session is over and recorded as relayed.
pub proof fn upstream_close_ends_the_relay(state: SessionView, message: UpstreamView)
    requires
        state.phase is Relaying,
        message is Close,
    ensures
        run(state, seq![EventView::UpstreamMessage(message), EventView::Sent]) == Some(
            (
                state.to(PhaseView::Done),
                seq![
                    ActionView::SendDownstream(to_downstream(message)),
                    ActionView::Finish(Some(state.record(SWITCHING_PROTOCOLS))),
                ],
            ),
        ),
{
    let close = EventView::UpstreamMessage(message);
    assert(seq![close, EventView::Sent].drop_last() == seq![close]);
    assert(seq![close].drop_last() == Seq::<EventView>::empty());
    reveal_with_fuel(run, 3);
    assert((run(state, seq![close, EventView::Sent])->0).1 == seq![
        ActionView::SendDownstream(to_downstream(message)),
        ActionView::Finish(Some(state.record(SWITCHING_PROTOCOLS))),
    ]);
}

/// What a session that is about to end well has just been told: a close message
/// or the end of a stream.
spec fn ending_fits(phase: PhaseView, events: Seq<EventView>) -> bool {
    match phase {
        PhaseView::ForwardingUp { last: true } => {
            &&& events.len() > 0
            &&& events.last() matches EventView::DownstreamMessage(message)
            &&& message is Close
        },
        PhaseView::ForwardingDown { last: true } => {
            &&& events.len() > 0
            &&& events.last() matches EventView::UpstreamMessage(message)
            &&& message is Close
        },
        PhaseView::Closing => {
            &&& events.len() > 0
            &&& events.last() is DownstreamEnded || events.last() is UpstreamEnded
        },
        _ => true,
    }
}

proof fn endings_fit(limit: usize, events: Seq<EventView>)
    ensures
        run(SessionView::started(limit), events) matches Some((state, _)) ==> ending_fits(
            state.phase,
            events,
        ),
    decreases events.len(),
{
    if events.len() > 0 {
        endings_fit(limit, events.drop_last());
    }
}

/// Once upstream is reached, a session that is recorded as relayed is one in
/// which the event before last was a close message of one side, which was then
/// sent, or the end of one side's stream. No other message, and no completed
/// response, ends a session.
pub proof fn relayed_sessions_end_by_close_or_stream_end(limit: usize, events: Seq<EventView>)
    requires
        exists|i: int| 0 <= i < events.len() && (#[trigger] events[i]) is Connected,
    ensures
        run(SessionView::started(limit), events) matches Some((_, actions)) ==> (actions.len() > 0
            ==> (actions.last() matches ActionView::Finish(Some(record)) && record.status == 101
            ==> {
            &&& events.len() >= 2
            &&& match events[events.len() - 2] {
                EventView::DownstreamMessage(message) => message is Close && events[events.len()
                    - 1] is Sent,
                EventView::UpstreamMessage(message) => message is Close && events[events.len()
                    - 1] is Sent,
                EventView::DownstreamEnded | EventView::UpstreamEnded => true,
                _ => false,
            }
        })),
{
    let earlier = events.drop_last();
    endings_fit(limit, earlier);
    failures_fit(limit, earlier);
    reached_now_or_before(events);
    assert(reached(events));
    if earlier.len() > 0 {
        assert(earlier.last() == events[events.len() - 2]);
    }
}

/// A session whose upstream was reached and in which neither a failure nor a
/// close message nor the end of a stream has happened is not over: however many
/// messages were relayed, it relays the next one.
pub proof fn relay_goes_on(start: SessionView, events: Seq<EventView>)
    requires
        start.phase is Relaying,
        forall|i: int|
            0 <= i < events.len() ==> match #[trigger] events[i] {
                EventView::DownstreamMessage(message) => !(message is Close),
                EventView::UpstreamMessage(message) => !(message is Close),
                EventView::Sent => true,
                _ => false,
            },
    ensures
        run(start, events) matches Some((state, _)) ==> {
            ||| state.phase is Relaying
            ||| state.next(EventView::Sent) matches Some((next, action)) && next.phase is Relaying
                && action == ActionView::ReceiveEither
        },
    decreases events.len(),
{
    if events.len() > 0 {
        let earlier = events.drop_last();
        assert forall|i: int| 0 <= i < earlier.len() implies match #[trigger] earlier[i] {
            EventView::DownstreamMessage(message) => !(message is Close),
            EventView::UpstreamMessage(message) => !(message is Close),
            EventView::Sent => true,
            _ => false,
        } by {
            assert(earlier[i] == events[i]);
        }
        relay_goes_on(start, earlier);
        assert(events.last() == events[events.len() - 1]);
    }
}

/// The usage of a session is that of the last text of upstream that reports one,
/// whatever was reported before it, and that is what is recorded.
pub proof fn last_reported_usage_is_recorded(
    limit: usize,
    events: Seq<EventView>,
    last: int,
    text: Seq<char>,
    counts: (i64, i64),
)
    requires
        0 <= last < events.len(),
        events[last] == EventView::UpstreamMessage(UpstreamView::Text(text)),
        usage_in_text(text) == Some(counts),
        forall|i: int|
            last < i < events.len() ==> (#[trigger] events[i] matches EventView::UpstreamMessage(
                UpstreamView::Text(later),
            ) ==> usage_in_text(later) is None),
    ensures
        run(SessionView::started(limit), events) matches Some((state, actions)) ==> {
            &&& state.usage == Some(counts)
            &&& actions.len() > 0 ==> (actions.last() matches ActionView::Finish(Some(record))
                ==> record.usage == Some(counts))
        },
    decreases events.len(),
{
    let earlier = events.drop_last();
    if last < earlier.len() {
        assert forall|i: int| last < i < earlier.len() implies (#[trigger] earlier[i]
            matches EventView::UpstreamMessage(UpstreamView::Text(later)) ==> usage_in_text(
            later,
        ) is None) by {
            assert(earlier[i] == events[i]);
        }
        last_reported_usage_is_recorded(limit, earlier, last, text, counts);
    }
    assert(events.last() == events[events.len() - 1]);
}

/// A session in which no text of upstream reports a usage records none.
pub proof fn unreported_usage_is_not_recorded(limit: usize, events: Seq<EventView>)
    requires
        forall|i: int|
            0 <= i < events.len() ==> (#[trigger] events[i] matches EventView::UpstreamMessage(
                UpstreamView::Text(text),
            ) ==> usage_in_text(text) is None),
    ensures
        run(SessionView::started(limit), events) matches Some((state, actions)) ==> {
            &&& state.usage is None
            &&& actions.len() > 0 ==> (actions.last() matches ActionView::Finish(Some(record))
                ==> record.usage is None)
        },
    decreases events.len(),
{
    if events.len() > 0 {
        let earlier = events.drop_last();
        assert forall|i: int| 0 <= i < earlier.len() implies (#[trigger] earlier[i]
            matches EventView::UpstreamMessage(UpstreamView::Text(text)) ==> usage_in_text(
            text,
        ) is None) by {
            assert(earlier[i] == events[i]);
        }
        unreported_usage_is_not_recorded(limit, earlier);
        assert(events.last() == events[events.len() - 1]);
    }
}

/// Where a session connects to upstream for some bytes, and these are an object
/// with a string under `model`, that string is the model that is recorded, all
/// of it. For any other bytes `-` is recorded.
pub proof fn requested_model_is_recorded(
    limit: usize,
    events: Seq<EventView>,
    at: int,
    payload: Seq<u8>,
)
    requires
        0 <= at < events.len(),
        run(SessionView::started(limit), events) matches Some((_, actions)) && actions[at]
            == ActionView::Connect(payload),
    ensures
        run(SessionView::started(limit), events) matches Some((state, actions)) && {
            &&& match parsed_bytes(payload) {
                Some(Json::Object(members)) => if members.contains_key("model"@) {
                    match members["model"@] {
                        Json::Text(name) => state.model == name,
                        _ => state.model == "-"@,
                    }
                } else {
                    state.model == "-"@
                },
                _ => state.model == "-"@,
            }
            &&& actions.last() matches ActionView::Finish(Some(record)) ==> record.model
                == state.model
        },
    decreases events.len(),
{
    let earlier = events.drop_last();
    sessions_finish_once(limit, earlier);
    sessions_finish_once(limit, events);
    if let Some((state, actions)) = run(SessionView::started(limit), earlier) {
        if at < earlier.len() {
            assert((run(SessionView::started(limit), events)->0).1[at] == actions[at]);
            requested_model_is_recorded(limit, earlier, at, payload);
            connected_at(actions, at, payload);
            phase_tells_contact(limit, earlier);
        }
    }
}

/// An action that connects is counted.
proof fn connected_at(actions: Seq<ActionView>, at: int, payload: Seq<u8>)
    requires
        0 <= at < actions.len(),
        actions[at] == ActionView::Connect(payload),
    ensures
        connected_for(actions).len() > 0,
    decreases actions.len(),
{
    if at < actions.len() - 1 {
        connected_at(actions.drop_last(), at, payload);
    }
}

/// The account that upstream was reached with is the one that is recorded.
pub proof fn reached_account_is_recorded(
    limit: usize,
    events: Seq<EventView>,
    at: int,
    account: Seq<char>,
)
    requires
        0 <= at < events.len(),
        events[at] == EventView::Connected(account),
    ensures
        run(SessionView::started(limit), events) matches Some((state, actions)) ==> {
            &&& state.account == account
            &&& actions.len() > 0 ==> (actions.last() matches ActionView::Finish(Some(record))
                ==> record.account == account)
        },
    decreases events.len(),
{
    let earlier = events.drop_last();
    phases_fit(limit, earlier);
    if at < earlier.len() {
        assert(earlier[at] == events[at]);
        assert(reached(earlier));
        reached_account_is_recorded(limit, earlier, at, account);
    }
    assert(events.last() == events[events.len() - 1]);
}

/// The action that answers a message of upstream is to send the client the same
/// message, at every point of a session.
pub proof fn upstream_messages_are_forwarded_at_once(limit: usize, events: Seq<EventView>, at: int)
    requires
        0 <= at < events.len(),
        run(SessionView::started(limit), events) is Some,
    ensures
        run(SessionView::started(limit), events) matches Some((_, actions)) && match events[at] {
            EventView::UpstreamMessage(UpstreamView::Text(text)) => actions[at]
                == ActionView::SendDownstream(DownstreamView::Text(text)),
            EventView::UpstreamMessage(UpstreamView::Binary(bytes)) => actions[at]
                == ActionView::SendDownstream(DownstreamView::Binary(bytes)),
            EventView::UpstreamMessage(UpstreamView::Ping(bytes)) => actions[at]
                == ActionView::SendDownstream(DownstreamView::Ping(bytes)),
            EventView::UpstreamMessage(UpstreamView::Pong(bytes)) => actions[at]
                == ActionView::SendDownstream(DownstreamView::Pong(bytes)),
            EventView::UpstreamMessage(UpstreamView::Close { code, reason }) => actions[at]
                == ActionView::SendDownstream(
                DownstreamView::Close(
                    Some(CloseFrameView { code: close_code_number(code), reason }),
                ),
            ),
            _ => true,
        },
    decreases events.len(),
{
    let earlier = events.drop_last();
    sessions_finish_once(limit, earlier);
    if at < earlier.len() {
        upstream_messages_are_forwarded_at_once(limit, earlier, at);
        assert(earlier[at] == events[at]);
    }
}

/// The action that answers a message of the client is, once upstream is reached,
/// to send upstream the same message, at every point of a session.
pub proof fn client_messages_are_forwarded_at_once(
    limit: usize,
    events: Seq<EventView>,
    contact: int,
    at: int,
)
    requires
        0 <= contact < at < events.len(),
        events[contact] is Connected,
        run(SessionView::started(limit), events) is Some,
    ensures
        run(SessionView::started(limit), events) matches Some((_, actions)) && match events[at] {
            EventView::DownstreamMessage(DownstreamView::Text(text)) => actions[at]
                == ActionView::SendUpstream(UpstreamView::Text(text)),
            EventView::DownstreamMessage(DownstreamView::Binary(bytes)) => actions[at]
                == ActionView::SendUpstream(UpstreamView::Binary(bytes)),
            EventView::DownstreamMessage(DownstreamView::Ping(bytes)) => actions[at]
                == ActionView::SendUpstream(UpstreamView::Ping(bytes)),
            EventView::DownstreamMessage(DownstreamView::Pong(bytes)) => actions[at]
                == ActionView::SendUpstream(UpstreamView::Pong(bytes)),
            EventView::DownstreamMessage(DownstreamView::Close(Some(frame))) => actions[at]
                == ActionView::SendUpstream(
                UpstreamView::Close { code: close_code_of(frame.code), reason: frame.reason },
            ),
            EventView::DownstreamMessage(DownstreamView::Close(None)) => actions[at]
                == ActionView::SendUpstream(
                UpstreamView::Close { code: close_code_of(1000), reason: Seq::empty() },
            ),
            _ => true,
        },
    decreases events.len(),
{
    let earlier = events.drop_last();
    sessions_finish_once(limit, earlier);
    phases_fit(limit, earlier);
    assert(earlier[contact] == events[contact]);
    assert(reached(earlier));
    if at < earlier.len() {
        client_messages_are_forwarded_at_once(limit, earlier, contact, at);
        assert(earlier[at] == events[at]);
    }
}

} // verus!
