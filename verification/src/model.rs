//! The relay session as a state machine: its states, what can happen to it, and
//! what it does next.
use crate::inspect::{model_in_bytes, usage_in_text};
use crate::json::parsed_text;
use crate::message::{to_downstream, to_upstream, DownstreamView, UpstreamView, NORMAL_CLOSURE};
use crate::report::{error_json, error_message, failure_close};
use crate::text::oversize_error_text;
use vstd::prelude::*;

verus! {

/// The status under which a session is recorded that was relayed to its end.
pub const SWITCHING_PROTOCOLS: u16 = 101;

/// The status of a session that failed before a request could be taken.
pub const BAD_REQUEST: u16 = 400;

/// The status of a session that failed while it was relayed.
pub const BAD_GATEWAY: u16 = 502;

/// The close code for a first request that is larger than the limit.
pub const MESSAGE_TOO_BIG: u16 = 1009;

/// The contents of an [`crate::session::Event`].
pub enum EventView {
    DownstreamMessage(DownstreamView),
    DownstreamFailed(Seq<char>),
    DownstreamEnded,
    UpstreamMessage(UpstreamView),
    UpstreamFailed(Seq<char>),
    UpstreamEnded,
    Connected(Seq<char>),
    ConnectFailed { status: u16, message: Seq<char> },
    Sent,
    SendFailed(Seq<char>),
}

/// The contents of an [`crate::session::Action`].
pub enum ActionView {
    ReceiveDownstream,
    ReceiveEither,
    Connect(Seq<u8>),
    SendDownstream(DownstreamView),
    SendUpstream(UpstreamView),
    Finish(Option<RecordView>),
}

/// The contents of an [`crate::session::AccessRecord`].
pub struct RecordView {
    pub model: Seq<char>,
    pub account: Seq<char>,
    pub status: u16,
    pub usage: Option<(i64, i64)>,
}

/// What a session is waiting for: a first request (`Waiting`), the outcome of a
/// send (`Ponging`, `Leaving`, `Refusing`, `Opening`, `ForwardingUp`,
/// `ForwardingDown`, `Closing`, `Reporting`, `Disconnecting`), the outcome of
/// the connection (`Connecting`), a message of either side (`Relaying`), or
/// nothing (`Done`).
pub enum PhaseView {
    Waiting,
    Ponging,
    Leaving,
    Refusing { error: Seq<char> },
    Connecting { first: DownstreamView },
    Opening,
    Relaying,
    ForwardingUp { last: bool },
    ForwardingDown { last: bool },
    Closing,
    Reporting { status: u16 },
    Disconnecting { status: u16 },
    Done,
}

/// The state of a [`crate::session::Session`].
pub struct SessionView {
    /// The most bytes that the first request may have.
    pub limit: usize,
    pub phase: PhaseView,
    pub model: Seq<char>,
    pub account: Seq<char>,
    pub usage: Option<(i64, i64)>,
}

/// The characters of an optional string, or `-` where there is none.
pub open spec fn or_dash(text: Option<Seq<char>>) -> Seq<char> {
    match text {
        Some(text) => text,
        None => "-"@,
    }
}

/// The usage to record after an event that may report one: the newest.
pub open spec fn newest_usage(
    known: Option<(i64, i64)>,
    completed: Option<(i64, i64)>,
) -> Option<(i64, i64)> {
    if completed is Some {
        completed
    } else {
        known
    }
}

/// The usage that a message of upstream reports: only text messages do.
pub open spec fn usage_in_message(message: UpstreamView) -> Option<(i64, i64)> {
    match message {
        UpstreamView::Text(text) => usage_in_text(text),
        _ => None,
    }
}

impl SessionView {
    /// The state of a session that has just been started.
    pub open spec fn started(limit: usize) -> SessionView {
        SessionView {
            limit,
            phase: PhaseView::Waiting,
            model: "-"@,
            account: "-"@,
            usage: None,
        }
    }

    /// The same session, waiting for something else.
    pub open spec fn to(self, phase: PhaseView) -> SessionView {
        SessionView { phase, ..self }
    }

    /// The record of this session under a status.
    pub open spec fn record(self, status: u16) -> RecordView {
        RecordView { model: self.model, account: self.account, status, usage: self.usage }
    }

    /// The session is over and recorded.
    pub open spec fn recorded(self, status: u16) -> (SessionView, ActionView) {
        (self.to(PhaseView::Done), ActionView::Finish(Some(self.record(status))))
    }

    /// The session failed, and the client is told so.
    pub open spec fn failed(self, status: u16, error: Seq<char>) -> (SessionView, ActionView) {
        (
            self.to(PhaseView::Reporting { status }),
            ActionView::SendDownstream(error_message(status, error)),
        )
    }

    /// What follows a message of a client that has not asked anything yet.
    pub open spec fn after_first_message(self, message: DownstreamView) -> (
        SessionView,
        ActionView,
    ) {
        match message {
            DownstreamView::Ping(payload) => (
                self.to(PhaseView::Ponging),
                ActionView::SendDownstream(DownstreamView::Pong(payload)),
            ),
            DownstreamView::Pong(_) => (self, ActionView::ReceiveDownstream),
            DownstreamView::Close(frame) => (
                self.to(PhaseView::Leaving),
                ActionView::SendDownstream(DownstreamView::Close(frame)),
            ),
            data => {
                let payload = data.payload()->0;
                if payload.len() > self.limit {
                    (
                        self.to(
                            PhaseView::Refusing {
                                error: oversize_error_text(payload.len(), self.limit as nat),
                            },
                        ),
                        ActionView::SendDownstream(
                            DownstreamView::closing(
                                MESSAGE_TOO_BIG,
                                "response.create frame exceeds configured limit"@,
                            ),
                        ),
                    )
                } else {
                    (
                        SessionView {
                            phase: PhaseView::Connecting { first: data },
                            model: or_dash(model_in_bytes(payload)),
                            ..self
                        },
                        ActionView::Connect(payload),
                    )
                }
            },
        }
    }

    /// What follows an event on one of the two connected sides, or `None` for
    /// an event that is not one of these.
    pub open spec fn after_relayed(self, event: EventView) -> Option<(SessionView, ActionView)> {
        match event {
            EventView::DownstreamMessage(message) => Some(
                (
                    self.to(PhaseView::ForwardingUp { last: message is Close }),
                    ActionView::SendUpstream(to_upstream(message)),
                ),
            ),
            EventView::DownstreamFailed(error) => Some(
                self.failed(BAD_GATEWAY, "reading downstream websocket failed: "@ + error),
            ),
            EventView::DownstreamEnded => Some(
                (
                    self.to(PhaseView::Closing),
                    ActionView::SendUpstream(UpstreamView::normal_closure()),
                ),
            ),
            EventView::UpstreamMessage(message) => Some(
                (
                    SessionView {
                        phase: PhaseView::ForwardingDown { last: message is Close },
                        usage: newest_usage(self.usage, usage_in_message(message)),
                        ..self
                    },
                    ActionView::SendDownstream(to_downstream(message)),
                ),
            ),
            EventView::UpstreamFailed(error) => Some(
                self.failed(BAD_GATEWAY, "reading upstream websocket failed: "@ + error),
            ),
            EventView::UpstreamEnded => Some(
                (
                    self.to(PhaseView::Closing),
                    ActionView::SendDownstream(
                        DownstreamView::closing(NORMAL_CLOSURE, Seq::empty()),
                    ),
                ),
            ),
            _ => None,
        }
    }

    /// What follows a message that was sent, or `None` where none was being
    /// sent.
    pub open spec fn after_sent(self) -> Option<(SessionView, ActionView)> {
        match self.phase {
            PhaseView::Ponging => Some(
                (self.to(PhaseView::Waiting), ActionView::ReceiveDownstream),
            ),
            PhaseView::Opening
            | PhaseView::ForwardingUp { last: false }
            | PhaseView::ForwardingDown { last: false } => Some(
                (self.to(PhaseView::Relaying), ActionView::ReceiveEither),
            ),
            PhaseView::ForwardingUp { last: true }
            | PhaseView::ForwardingDown { last: true } => Some(self.recorded(SWITCHING_PROTOCOLS)),
            _ => self.after_farewell(),
        }
    }

    /// What follows a message that could not be sent, or `None` where none was
    /// being sent.
    pub open spec fn after_send_failed(self, error: Seq<char>) -> Option<
        (SessionView, ActionView),
    > {
        match self.phase {
            PhaseView::Ponging => Some(self.failed(BAD_REQUEST, error)),
            PhaseView::Opening => Some(
                self.failed(BAD_GATEWAY, "sending first upstream frame failed: "@ + error),
            ),
            PhaseView::ForwardingUp { .. } => Some(
                self.failed(BAD_GATEWAY, "sending upstream websocket frame failed: "@ + error),
            ),
            PhaseView::ForwardingDown { .. } => Some(
                self.failed(BAD_GATEWAY, "sending downstream websocket frame failed: "@ + error),
            ),
            _ => self.after_farewell(),
        }
    }

    /// What follows a message to a side that is being given up, whether it was
    /// sent or not, or `None` where no such message was being sent.
    pub open spec fn after_farewell(self) -> Option<(SessionView, ActionView)> {
        match self.phase {
            PhaseView::Leaving => Some((self.to(PhaseView::Done), ActionView::Finish(None))),
            PhaseView::Refusing { error } => Some(self.failed(BAD_REQUEST, error)),
            PhaseView::Closing => Some(self.recorded(SWITCHING_PROTOCOLS)),
            PhaseView::Reporting { status } => Some(
                (
                    self.to(PhaseView::Disconnecting { status }),
                    ActionView::SendDownstream(failure_close()),
                ),
            ),
            PhaseView::Disconnecting { status } => Some(self.recorded(status)),
            _ => None,
        }
    }

    /// The state and the action that follow an event, or `None` for an event
    /// that does not answer what the session is waiting for.
    pub open spec fn next(self, event: EventView) -> Option<(SessionView, ActionView)> {
        match (self.phase, event) {
            (_, EventView::Sent) => self.after_sent(),
            (_, EventView::SendFailed(error)) => self.after_send_failed(error),
            (PhaseView::Waiting, EventView::DownstreamMessage(message)) => Some(
                self.after_first_message(message),
            ),
            (PhaseView::Waiting, EventView::DownstreamFailed(error)) => Some(
                self.failed(BAD_REQUEST, error),
            ),
            (PhaseView::Waiting, EventView::DownstreamEnded) => Some(
                (self.to(PhaseView::Done), ActionView::Finish(None)),
            ),
            (PhaseView::Connecting { first }, EventView::Connected(account)) => Some(
                (
                    SessionView { phase: PhaseView::Opening, account, ..self },
                    ActionView::SendUpstream(to_upstream(first)),
                ),
            ),
            (
                PhaseView::Connecting { .. },
                EventView::ConnectFailed { status, message },
            ) => Some(self.failed(status, message)),
            (PhaseView::Relaying, event) => self.after_relayed(event),
            _ => None,
        }
    }

    /// The status and the error with which an event fails the session, or `None`
    /// for an event that does not.
    pub open spec fn failure(self, event: EventView) -> Option<(u16, Seq<char>)> {
        match (self.phase, event) {
            (PhaseView::Waiting, EventView::DownstreamFailed(error)) => Some((BAD_REQUEST, error)),
            (PhaseView::Ponging, EventView::SendFailed(error)) => Some((BAD_REQUEST, error)),
            (PhaseView::Refusing { error }, EventView::Sent) => Some((BAD_REQUEST, error)),
            (PhaseView::Refusing { error }, EventView::SendFailed(_)) => Some(
                (BAD_REQUEST, error),
            ),
            (
                PhaseView::Connecting { .. },
                EventView::ConnectFailed { status, message },
            ) => Some((status, message)),
            (PhaseView::Opening, EventView::SendFailed(error)) => Some(
                (BAD_GATEWAY, "sending first upstream frame failed: "@ + error),
            ),
            (PhaseView::Relaying, EventView::DownstreamFailed(error)) => Some(
                (BAD_GATEWAY, "reading downstream websocket failed: "@ + error),
            ),
            (PhaseView::Relaying, EventView::UpstreamFailed(error)) => Some(
                (BAD_GATEWAY, "reading upstream websocket failed: "@ + error),
            ),
            (PhaseView::ForwardingUp { .. }, EventView::SendFailed(error)) => Some(
                (BAD_GATEWAY, "sending upstream websocket frame failed: "@ + error),
            ),
            (PhaseView::ForwardingDown { .. }, EventView::SendFailed(error)) => Some(
                (BAD_GATEWAY, "sending downstream websocket frame failed: "@ + error),
            ),
            _ => None,
        }
    }

    /// What holds of every session that was started: what is known of it fits
    /// what it is waiting for.
    ///
    /// A request is only taken to upstream if it is a data message within the
    /// limit; before that no model is known, before upstream is reached no
    /// account, and before messages are relayed no usage.
    pub open spec fn well_formed(self) -> bool {
        match self.phase {
            PhaseView::Waiting
            | PhaseView::Ponging
            | PhaseView::Leaving
            | PhaseView::Refusing { .. } => {
                &&& self.model == "-"@
                &&& self.account == "-"@
                &&& self.usage is None
            },
            PhaseView::Connecting { first } => {
                &&& first.payload() matches Some(payload)
                &&& payload.len() <= self.limit
                &&& self.model == or_dash(model_in_bytes(payload))
                &&& self.account == "-"@
                &&& self.usage is None
            },
            PhaseView::Opening => self.usage is None,
            _ => true,
        }
    }
}

/// Whether an action sends a text to the client that parses as the wrapped error
/// with this status and message.
pub open spec fn sends_error(action: ActionView, status: u16, error: Seq<char>) -> bool {
    action matches ActionView::SendDownstream(DownstreamView::Text(text)) && parsed_text(text)
        == Some(error_json(status, error))
}

} // verus!
