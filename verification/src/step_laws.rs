//! What a session does with each thing that can happen to it, one or two steps
//! at a time.
use crate::close_code::{close_code_number, close_code_of};
use crate::inspect::{model_in_bytes, usage_in_text};
use crate::json::json_text;
use crate::message::{CloseFrameView, DownstreamView, UpstreamView};
use crate::model::{ActionView, EventView, PhaseView, RecordView, SessionView};
use crate::report::error_json;
use crate::text::decimal;
use vstd::prelude::*;
use vstd::utf8::encode_utf8;

verus! {

/// A session starts by waiting for the client, under the limit it is given, and
/// knows of no model, account or usage.
pub proof fn sessions_start_blank(limit: usize)
    ensures
        SessionView::started(limit) == (SessionView {
            limit,
            phase: PhaseView::Waiting,
            model: "-"@,
            account: "-"@,
            usage: None,
        }),
{
}

/// Before the first request a ping is answered with its own payload and then
/// waited on as before, and a pong is passed over.
pub proof fn idle_clients_are_kept(state: SessionView, payload: Seq<u8>)
    requires
        state.phase is Waiting,
    ensures
        state.next(EventView::DownstreamMessage(DownstreamView::Ping(payload))) matches Some(
            (middle, action),
        ) && {
            &&& action == ActionView::SendDownstream(DownstreamView::Pong(payload))
            &&& middle == (SessionView { phase: PhaseView::Ponging, ..state })
            &&& middle.next(EventView::Sent) == Some((state, ActionView::ReceiveDownstream))
        },
        state.next(EventView::DownstreamMessage(DownstreamView::Pong(payload))) == Some(
            (state, ActionView::ReceiveDownstream),
        ),
{
}

/// A client that closes before it asks anything is sent its own close message
/// back, and the session is over without a record, whether or not that can be
/// sent. The session of a client that is gone is over at once.
pub proof fn early_closes_are_echoed(
    state: SessionView,
    frame: Option<CloseFrameView>,
    error: Seq<char>,
)
    requires
        state.phase is Waiting,
    ensures
        state.next(EventView::DownstreamMessage(DownstreamView::Close(frame))) matches Some(
            (middle, action),
        ) && {
            &&& action == ActionView::SendDownstream(DownstreamView::Close(frame))
            &&& middle.next(EventView::Sent) matches Some((end, finish)) && end.phase is Done
                && finish == ActionView::Finish(None)
            &&& middle.next(EventView::SendFailed(error)) matches Some((end, finish))
                && end.phase is Done && finish == ActionView::Finish(None)
        },
        state.next(EventView::DownstreamEnded) matches Some((end, finish)) && end.phase is Done
            && finish == ActionView::Finish(None),
{
}

/// A first data message within the limit is taken: upstream is connected to for
/// its bytes, and the model that it names is known from then on, or `-` where it
/// names none. Once upstream is reached the message is sent there as it came,
/// the account is known, and when it is sent messages are relayed.
pub proof fn small_requests_are_taken(
    state: SessionView,
    message: DownstreamView,
    bytes: Seq<u8>,
    account: Seq<char>,
)
    requires
        state.phase is Waiting,
        message == DownstreamView::Binary(bytes) || (message matches DownstreamView::Text(text)
            && encode_utf8(text) == bytes),
        bytes.len() <= state.limit,
    ensures
        state.next(EventView::DownstreamMessage(message)) matches Some((middle, action)) && {
            &&& action == ActionView::Connect(bytes)
            &&& middle.phase is Connecting
            &&& middle.next(EventView::Connected(account)) matches Some((opening, first)) && {
                &&& opening.phase is Opening
                &&& first == ActionView::SendUpstream(
                    match message {
                        DownstreamView::Text(text) => UpstreamView::Text(text),
                        _ => UpstreamView::Binary(bytes),
                    },
                )
                &&& opening.next(EventView::Sent) matches Some((relaying, go)) && {
                    &&& go == ActionView::ReceiveEither
                    &&& relaying.phase is Relaying
                    &&& relaying.limit == state.limit
                    &&& relaying.usage == state.usage
                    &&& relaying.account == account
                    &&& model_in_bytes(bytes) matches Some(name) ==> relaying.model == name
                    &&& model_in_bytes(bytes) is None ==> relaying.model == "-"@
                }
            }
        },
{
}

/// A message of the client that is no close message is sent to upstream as it
/// came, and once it is sent the session is back where it was: relaying goes on.
pub proof fn client_messages_keep_the_relay_going(
    state: SessionView,
    text: Seq<char>,
    bytes: Seq<u8>,
)
    requires
        state.phase is Relaying,
    ensures
        state.next(EventView::DownstreamMessage(DownstreamView::Text(text))) matches Some(
            (middle, action),
        ) && {
            &&& action == ActionView::SendUpstream(UpstreamView::Text(text))
            &&& middle.next(EventView::Sent) == Some((state, ActionView::ReceiveEither))
        },
        state.next(EventView::DownstreamMessage(DownstreamView::Binary(bytes))) matches Some(
            (middle, action),
        ) && {
            &&& action == ActionView::SendUpstream(UpstreamView::Binary(bytes))
            &&& middle.next(EventView::Sent) == Some((state, ActionView::ReceiveEither))
        },
        state.next(EventView::DownstreamMessage(DownstreamView::Ping(bytes))) matches Some(
            (middle, action),
        ) && {
            &&& action == ActionView::SendUpstream(UpstreamView::Ping(bytes))
            &&& middle.next(EventView::Sent) == Some((state, ActionView::ReceiveEither))
        },
        state.next(EventView::DownstreamMessage(DownstreamView::Pong(bytes))) matches Some(
            (middle, action),
        ) && {
            &&& action == ActionView::SendUpstream(UpstreamView::Pong(bytes))
            &&& middle.next(EventView::Sent) == Some((state, ActionView::ReceiveEither))
        },
{
}

/// A message of upstream that is no close message is sent to the client as it
/// came, and once it is sent relaying goes on, also after a completed response.
/// The session is where it was, but for the usage that a text reports, which
/// takes the place of any that was known.
pub proof fn upstream_messages_keep_the_relay_going(
    state: SessionView,
    text: Seq<char>,
    bytes: Seq<u8>,
)
    requires
        state.phase is Relaying,
    ensures
        state.next(EventView::UpstreamMessage(UpstreamView::Text(text))) matches Some(
            (middle, action),
        ) && {
            &&& action == ActionView::SendDownstream(DownstreamView::Text(text))
            &&& middle.next(EventView::Sent) matches Some((back, go)) && {
                &&& go == ActionView::ReceiveEither
                &&& usage_in_text(text) matches Some(counts) ==> back == (SessionView {
                    usage: Some(counts),
                    ..state
                })
                &&& usage_in_text(text) is None ==> back == state
            }
        },
        state.next(EventView::UpstreamMessage(UpstreamView::Binary(bytes))) matches Some(
            (middle, action),
        ) && {
            &&& action == ActionView::SendDownstream(DownstreamView::Binary(bytes))
            &&& middle.next(EventView::Sent) == Some((state, ActionView::ReceiveEither))
        },
        state.next(EventView::UpstreamMessage(UpstreamView::Ping(bytes))) matches Some(
            (middle, action),
        ) && {
            &&& action == ActionView::SendDownstream(DownstreamView::Ping(bytes))
            &&& middle.next(EventView::Sent) == Some((state, ActionView::ReceiveEither))
        },
        state.next(EventView::UpstreamMessage(UpstreamView::Pong(bytes))) matches Some(
            (middle, action),
        ) && {
            &&& action == ActionView::SendDownstream(DownstreamView::Pong(bytes))
            &&& middle.next(EventView::Sent) == Some((state, ActionView::ReceiveEither))
        },
{
}

/// A close message of either side is sent on with its code and reason, a normal
/// closure in place of one without a frame, and once it is sent the session is
/// over and recorded as relayed, with all that is known of it.
pub proof fn close_messages_finish_the_relay(
    state: SessionView,
    frame: CloseFrameView,
    code: reqwest_websocket::CloseCode,
    reason: Seq<char>,
)
    requires
        state.phase is Relaying,
    ensures
        ({
            let done = Some(
                (
                    SessionView { phase: PhaseView::Done, ..state },
                    ActionView::Finish(
                        Some(
                            RecordView {
                                model: state.model,
                                account: state.account,
                                status: 101,
                                usage: state.usage,
                            },
                        ),
                    ),
                ),
            );
            &&& state.next(EventView::DownstreamMessage(DownstreamView::Close(Some(frame))))
                matches Some((middle, action)) && {
                &&& action == ActionView::SendUpstream(
                    UpstreamView::Close { code: close_code_of(frame.code), reason: frame.reason },
                )
                &&& middle.next(EventView::Sent) == done
            }
            &&& state.next(EventView::DownstreamMessage(DownstreamView::Close(None)))
                matches Some((middle, action)) && {
                &&& action == ActionView::SendUpstream(
                    UpstreamView::Close { code: close_code_of(1000), reason: Seq::empty() },
                )
                &&& middle.next(EventView::Sent) == done
            }
            &&& state.next(EventView::UpstreamMessage(UpstreamView::Close { code, reason }))
                matches Some((middle, action)) && {
                &&& action == ActionView::SendDownstream(
                    DownstreamView::Close(
                        Some(CloseFrameView { code: close_code_number(code), reason }),
                    ),
                )
                &&& middle.next(EventView::Sent) == done
            }
        }),
{
}

/// When the stream of one side ends the other side is sent a normal closure, and
/// the session is over and recorded as relayed, whether or not that can be sent.
pub proof fn stream_ends_finish_the_relay(state: SessionView, error: Seq<char>)
    requires
        state.phase is Relaying,
    ensures
        ({
            let done = Some(
                (
                    SessionView { phase: PhaseView::Done, ..state },
                    ActionView::Finish(
                        Some(
                            RecordView {
                                model: state.model,
                                account: state.account,
                                status: 101,
                                usage: state.usage,
                            },
                        ),
                    ),
                ),
            );
            &&& state.next(EventView::DownstreamEnded) matches Some((middle, action)) && {
                &&& action == ActionView::SendUpstream(
                    UpstreamView::Close { code: close_code_of(1000), reason: Seq::empty() },
                )
                &&& middle.next(EventView::Sent) == done
                &&& middle.next(EventView::SendFailed(error)) == done
            }
            &&& state.next(EventView::UpstreamEnded) matches Some((middle, action)) && {
                &&& action == ActionView::SendDownstream(
                    DownstreamView::Close(
                        Some(CloseFrameView { code: 1000, reason: Seq::empty() }),
                    ),
                )
                &&& middle.next(EventView::Sent) == done
                &&& middle.next(EventView::SendFailed(error)) == done
            }
        }),
{
}

/// What follows a failure with this status and error: nothing that is known of
/// the session changes, and the client is sent the wrapped error, then a close
/// message, and the session is recorded under the status, whether or not these
/// can be sent.
pub open spec fn fails_with(
    state: SessionView,
    event: EventView,
    status: u16,
    error: Seq<char>,
    first: EventView,
    second: EventView,
) -> bool {
    state.next(event) matches Some((reporting, told)) && {
        &&& told == ActionView::SendDownstream(
            DownstreamView::Text(json_text(error_json(status, error))),
        )
        &&& reporting.next(first) matches Some((closing, close)) && {
            &&& close == ActionView::SendDownstream(
                DownstreamView::Close(
                    Some(
                        CloseFrameView {
                            code: 1011,
                            reason: "upstream websocket proxy failed"@,
                        },
                    ),
                ),
            )
            &&& closing.next(second) == Some(
                (
                    SessionView { phase: PhaseView::Done, ..state },
                    ActionView::Finish(
                        Some(
                            RecordView {
                                model: state.model,
                                account: state.account,
                                status,
                                usage: state.usage,
                            },
                        ),
                    ),
                ),
            )
        }
    }
}

/// A first data message with more bytes than the limit closes the client for its
/// size, and then, whether or not that can be sent, the session fails as a bad
/// request, with both sizes in the error.
pub proof fn large_requests_are_refused(
    state: SessionView,
    message: DownstreamView,
    bytes: Seq<u8>,
    outcome: EventView,
    first: EventView,
    second: EventView,
)
    requires
        state.phase is Waiting,
        message == DownstreamView::Binary(bytes) || (message matches DownstreamView::Text(text)
            && encode_utf8(text) == bytes),
        bytes.len() > state.limit,
        outcome is Sent || outcome is SendFailed,
        first is Sent || first is SendFailed,
        second is Sent || second is SendFailed,
    ensures
        state.next(EventView::DownstreamMessage(message)) matches Some((middle, action)) && {
            &&& action == ActionView::SendDownstream(
                DownstreamView::Close(
                    Some(
                        CloseFrameView {
                            code: 1009,
                            reason: "response.create frame exceeds configured limit"@,
                        },
                    ),
                ),
            )
            &&& middle == (SessionView { phase: middle.phase, ..state })
            &&& fails_with(
                middle,
                outcome,
                400,
                "websocket request frame is "@ + decimal(bytes.len()) + " bytes; limit is "@
                    + decimal(state.limit as nat),
                first,
                second,
            )
        },
{
}

/// A session that cannot read its client, or cannot send it a pong, before a
/// request fails as a bad request, with the error that was met.
pub proof fn failures_before_a_request(
    state: SessionView,
    error: Seq<char>,
    first: EventView,
    second: EventView,
)
    requires
        first is Sent || first is SendFailed,
        second is Sent || second is SendFailed,
    ensures
        state.phase is Waiting ==> fails_with(
            state,
            EventView::DownstreamFailed(error),
            400,
            error,
            first,
            second,
        ),
        state.phase is Ponging ==> fails_with(
            state,
            EventView::SendFailed(error),
            400,
            error,
            first,
            second,
        ),
{
}

/// A session whose upstream is not reached fails with the status and the message
/// that this came with.
pub proof fn failures_to_connect(
    state: SessionView,
    status: u16,
    message: Seq<char>,
    first: EventView,
    second: EventView,
)
    requires
        state.phase is Connecting,
        first is Sent || first is SendFailed,
        second is Sent || second is SendFailed,
    ensures
        fails_with(
            state,
            EventView::ConnectFailed { status, message },
            status,
            message,
            first,
            second,
        ),
{
}

/// A session that cannot read a side, or cannot send to one, once upstream is
/// reached fails as a bad gateway, with the error that was met and what was
/// being done.
pub proof fn failures_of_the_relay(
    state: SessionView,
    error: Seq<char>,
    first: EventView,
    second: EventView,
)
    requires
        first is Sent || first is SendFailed,
        second is Sent || second is SendFailed,
    ensures
        state.phase is Opening ==> fails_with(
            state,
            EventView::SendFailed(error),
            502,
            "sending first upstream frame failed: "@ + error,
            first,
            second,
        ),
        state.phase is Relaying ==> fails_with(
            state,
            EventView::DownstreamFailed(error),
            502,
            "reading downstream websocket failed: "@ + error,
            first,
            second,
        ),
        state.phase is Relaying ==> fails_with(
            state,
            EventView::UpstreamFailed(error),
            502,
            "reading upstream websocket failed: "@ + error,
            first,
            second,
        ),
        state.phase is ForwardingUp ==> fails_with(
            state,
            EventView::SendFailed(error),
            502,
            "sending upstream websocket frame failed: "@ + error,
            first,
            second,
        ),
        state.phase is ForwardingDown ==> fails_with(
            state,
            EventView::SendFailed(error),
            502,
            "sending downstream websocket frame failed: "@ + error,
            first,
            second,
        ),
{
}

/// A message that cannot be forwarded fails the session, a close message as any
/// other; the usage that it reports is still recorded.
pub proof fn failures_to_forward(
    state: SessionView,
    downstream: DownstreamView,
    upstream: UpstreamView,
    error: Seq<char>,
    first: EventView,
    second: EventView,
)
    requires
        state.phase is Relaying,
        first is Sent || first is SendFailed,
        second is Sent || second is SendFailed,
    ensures
        state.next(EventView::DownstreamMessage(downstream)) matches Some((middle, _)) && fails_with(
            middle,
            EventView::SendFailed(error),
            502,
            "sending upstream websocket frame failed: "@ + error,
            first,
            second,
        ) && middle.usage == state.usage,
        state.next(EventView::UpstreamMessage(upstream)) matches Some((middle, _)) && {
            &&& fails_with(
                middle,
                EventView::SendFailed(error),
                502,
                "sending downstream websocket frame failed: "@ + error,
                first,
                second,
            )
            &&& upstream matches UpstreamView::Text(text) ==> (usage_in_text(text) matches Some(
                counts,
            ) ==> middle.usage == Some(counts))
        },
{
}

/// What is known of a session changes only when something is learned: the limit
/// never, the model with the first request, the account when upstream is
/// reached, the usage with a text of upstream that reports one.
pub proof fn knowledge_changes_only_when_learned(state: SessionView, event: EventView)
    ensures
        state.next(event) matches Some((next, _)) ==> {
            &&& next.limit == state.limit
            &&& next.model != state.model ==> state.phase is Waiting && event is DownstreamMessage
                && next.phase is Connecting
            &&& next.account != state.account ==> (event matches EventView::Connected(account)
                && next.account == account)
            &&& next.usage != state.usage ==> (event matches EventView::UpstreamMessage(
                UpstreamView::Text(text),
            ) && usage_in_text(text) is Some && next.usage == usage_in_text(text))
        },
{
}

/// A session takes an event exactly where it waits for one of its kind: a client
/// before a request, the connection for one, either side while messages are
/// relayed, nothing when it is over, and the outcome of a send otherwise.
pub proof fn events_out_of_turn_are_not_taken(state: SessionView, event: EventView)
    ensures
        state.next(event) is Some <==> match state.phase {
            PhaseView::Waiting => event is DownstreamMessage || event is DownstreamFailed
                || event is DownstreamEnded,
            PhaseView::Connecting { .. } => event is Connected || event is ConnectFailed,
            PhaseView::Relaying => event is DownstreamMessage || event is DownstreamFailed
                || event is DownstreamEnded || event is UpstreamMessage || event is UpstreamFailed
                || event is UpstreamEnded,
            PhaseView::Done => false,
            _ => event is Sent || event is SendFailed,
        },
{
}

} // verus!
