//! One relay session, from the first frame of the client to the access record.
//!
//! A session waits for the answer to one action at a time. [`Session::step`]
//! takes that answer and gives the next action, until it gives
//! [`Action::Finish`].
use crate::inspect::{completed_usage, optional_text, request_model, usage_in_text};
use crate::json::parsed_text;
use crate::message::{
    closing, data_payload, downstream_to_upstream, normal_closure, upstream_to_downstream,
    DownstreamMessage, UpstreamMessage, NORMAL_CLOSURE,
};
use crate::model::{
    newest_usage, or_dash, sends_error, usage_in_message, ActionView, EventView, PhaseView,
    RecordView, SessionView, BAD_GATEWAY, BAD_REQUEST, MESSAGE_TOO_BIG, SWITCHING_PROTOCOLS,
};
use crate::report::{error_json, proxy_error_close, proxy_error_payload};
use crate::text::{oversize_error, with_context};
use vstd::prelude::*;
use vstd::slice::slice_to_vec;

verus! {

/// What happened on the connections, in answer to an [`Action`].
#[derive(Debug, PartialEq, Eq)]
pub enum Event {
    /// A message came from the client.
    DownstreamMessage(DownstreamMessage),
    /// The connection to the client could not be read.
    DownstreamFailed(String),
    /// The connection to the client is at its end.
    DownstreamEnded,
    /// A message came from upstream.
    UpstreamMessage(UpstreamMessage),
    /// The connection to upstream could not be read.
    UpstreamFailed(String),
    /// The connection to upstream is at its end.
    UpstreamEnded,
    /// Upstream was reached, with the account of this name.
    Connected(String),
    /// Upstream was not reached.
    ConnectFailed { status: u16, message: String },
    /// The message was sent.
    Sent,
    /// The message could not be sent.
    SendFailed(String),
}

/// What is to be done next.
#[derive(Debug, PartialEq, Eq)]
pub enum Action {
    /// Read the connection to the client.
    ReceiveDownstream,
    /// Read whichever connection has something first.
    ReceiveEither,
    /// Connect to upstream for the request with this payload.
    Connect(Vec<u8>),
    /// Send a message to the client.
    SendDownstream(DownstreamMessage),
    /// Send a message to upstream.
    SendUpstream(UpstreamMessage),
    /// Stop, and write the record to the access log if there is one.
    Finish(Option<AccessRecord>),
}

/// What the access log is told of a session.
#[derive(Debug, PartialEq, Eq)]
pub struct AccessRecord {
    /// The model that the first request names, or `-`.
    pub model: String,
    /// The account that upstream was reached with, or `-`.
    pub account: String,
    pub status: u16,
    /// The input and output tokens of the last completed response.
    pub usage: Option<(i64, i64)>,
}

/// What a session is waiting for.
#[derive(Debug, PartialEq, Eq)]
enum Phase {
    /// A first request.
    Waiting,
    /// A ping of a client that has not asked anything yet is being answered.
    Ponging,
    /// The close message of a client that asked nothing is being echoed.
    Leaving,
    /// A client is being closed for the size of its request.
    Refusing { error: String },
    /// Upstream is being reached for this request.
    Connecting { first: DownstreamMessage },
    /// The first request is being sent.
    Opening,
    /// A message of either side.
    Relaying,
    /// A message is being sent to upstream, the last one if it is a close.
    ForwardingUp { last: bool },
    /// A message is being sent to the client, the last one if it is a close.
    ForwardingDown { last: bool },
    /// One side is gone and the other is being closed.
    Closing,
    /// The client is being told of a failure.
    Reporting { status: u16 },
    /// The client was told of a failure and is being closed.
    Disconnecting { status: u16 },
    /// Nothing: the session is over.
    Done,
}

/// One relay session.
#[derive(Debug, PartialEq, Eq)]
pub struct Session {
    limit: usize,
    phase: Phase,
    model: String,
    account: String,
    usage: Option<(i64, i64)>,
}

impl View for Event {
    type V = EventView;

    open spec fn view(&self) -> EventView {
        match self {
            Event::DownstreamMessage(message) => EventView::DownstreamMessage(message@),
            Event::DownstreamFailed(error) => EventView::DownstreamFailed(error@),
            Event::DownstreamEnded => EventView::DownstreamEnded,
            Event::UpstreamMessage(message) => EventView::UpstreamMessage(message@),
            Event::UpstreamFailed(error) => EventView::UpstreamFailed(error@),
            Event::UpstreamEnded => EventView::UpstreamEnded,
            Event::Connected(account) => EventView::Connected(account@),
            Event::ConnectFailed { status, message } => EventView::ConnectFailed {
                status: *status,
                message: message@,
            },
            Event::Sent => EventView::Sent,
            Event::SendFailed(error) => EventView::SendFailed(error@),
        }
    }
}

impl View for AccessRecord {
    type V = RecordView;

    open spec fn view(&self) -> RecordView {
        RecordView {
            model: self.model@,
            account: self.account@,
            status: self.status,
            usage: self.usage,
        }
    }
}

impl View for Action {
    type V = ActionView;

    open spec fn view(&self) -> ActionView {
        match self {
            Action::ReceiveDownstream => ActionView::ReceiveDownstream,
            Action::ReceiveEither => ActionView::ReceiveEither,
            Action::Connect(payload) => ActionView::Connect(payload@),
            Action::SendDownstream(message) => ActionView::SendDownstream(message@),
            Action::SendUpstream(message) => ActionView::SendUpstream(message@),
            Action::Finish(Some(record)) => ActionView::Finish(Some(record@)),
            Action::Finish(None) => ActionView::Finish(None),
        }
    }
}

impl View for Phase {
    type V = PhaseView;

    closed spec fn view(&self) -> PhaseView {
        match self {
            Phase::Waiting => PhaseView::Waiting,
            Phase::Ponging => PhaseView::Ponging,
            Phase::Leaving => PhaseView::Leaving,
            Phase::Refusing { error } => PhaseView::Refusing { error: error@ },
            Phase::Connecting { first } => PhaseView::Connecting { first: first@ },
            Phase::Opening => PhaseView::Opening,
            Phase::Relaying => PhaseView::Relaying,
            Phase::ForwardingUp { last } => PhaseView::ForwardingUp { last: *last },
            Phase::ForwardingDown { last } => PhaseView::ForwardingDown { last: *last },
            Phase::Closing => PhaseView::Closing,
            Phase::Reporting { status } => PhaseView::Reporting { status: *status },
            Phase::Disconnecting { status } => PhaseView::Disconnecting { status: *status },
            Phase::Done => PhaseView::Done,
        }
    }
}

impl View for Session {
    type V = SessionView;

    closed spec fn view(&self) -> SessionView {
        SessionView {
            limit: self.limit,
            phase: self.phase@,
            model: self.model@,
            account: self.account@,
            usage: self.usage,
        }
    }
}

/// A string, or `-` where there is none.
pub fn text_or_dash(text: Option<String>) -> (result: String)
    ensures
        result@ == or_dash(optional_text(text)),
        match text {
            Some(given) => result@ == given@,
            None => result@ == "-"@,
        },
{
    match text {
        Some(text) => text,
        None => "-".to_owned(),
    }
}

/// The usage to record after an event that reported `completed`.
pub fn newer_usage(known: Option<(i64, i64)>, completed: Option<(i64, i64)>) -> (usage: Option<
    (i64, i64),
>)
    ensures
        usage == newest_usage(known, completed),
        completed is Some ==> usage == completed,
        completed is None ==> usage == known,
{
    match completed {
        Some(_) => completed,
        None => known,
    }
}

/// The usage that a message of upstream reports.
pub fn message_usage(message: &UpstreamMessage) -> (usage: Option<(i64, i64)>)
    ensures
        usage == usage_in_message(message@),
        match message {
            UpstreamMessage::Text(text) => usage == usage_in_text(text@),
            _ => usage is None,
        },
{
    match message {
        UpstreamMessage::Text(text) => completed_usage(text.as_str()),
        _ => None,
    }
}

/// Where there is a failure, the action sends the client a text that parses as
/// the wrapped error with the status and the message of that failure.
pub open spec fn failure_is_reported(
    failure: Option<(u16, Seq<char>)>,
    action: Option<Action>,
) -> bool {
    match failure {
        Some((status, error)) => action matches Some(given) && sends_error(
            given@,
            status,
            error,
        ),
        None => true,
    }
}

/// A state and an optional action that are what the model says follows, or the
/// state as it was where the model says that nothing does.
spec fn follows(
    before: SessionView,
    next: Option<(SessionView, ActionView)>,
    after: Session,
    action: Option<Action>,
) -> bool {
    match next {
        Some(next) => {
            &&& after@ == next.0
            &&& action matches Some(given)
            &&& given@ == next.1
        },
        None => after@ == before && action is None,
    }
}

impl Session {
    /// Starts a session whose first request may have up to `max_message_bytes`
    /// bytes.
    pub fn start(max_message_bytes: usize) -> (result: (Session, Action))
        ensures
            result.0@ == SessionView::started(max_message_bytes),
            result.0@.well_formed(),
            result.1@ == ActionView::ReceiveDownstream,
    {
        (
            Session {
                limit: max_message_bytes,
                phase: Phase::Waiting,
                model: "-".to_owned(),
                account: "-".to_owned(),
                usage: None,
            },
            Action::ReceiveDownstream,
        )
    }

    /// Takes the answer to the last action and gives the next one.
    ///
    /// An event that does not answer the last action changes nothing and gives
    /// no action. Where the session fails, the action is to send the client the
    /// wrapped error of that failure.
    pub fn step(self, event: Event) -> (result: (Session, Option<Action>))
        ensures
            match self@.next(event@) {
                Some((state, action)) => {
                    &&& result.0@ == state
                    &&& result.1 matches Some(given)
                    &&& given@ == action
                },
                None => result.0@ == self@ && result.1 is None,
            },
            self@.well_formed() ==> result.0@.well_formed(),
            failure_is_reported(self@.failure(event@), result.1),
    {
        match event {
            Event::Sent => self.after_sent(),
            Event::SendFailed(error) => self.after_send_failed(error),
            event => match self.phase {
                Phase::Waiting => self.receive_first_request(event),
                Phase::Connecting { first } => match event {
                    Event::Connected(account) => (
                        Session { phase: Phase::Opening, account, ..self },
                        Some(Action::SendUpstream(downstream_to_upstream(first))),
                    ),
                    Event::ConnectFailed { status, message } => Session {
                        phase: Phase::Done,
                        ..self
                    }.failed(status, message.as_str()),
                    _ => (Session { phase: Phase::Connecting { first }, ..self }, None),
                },
                Phase::Relaying => self.relay_frames(event),
                phase => (Session { phase, ..self }, None),
            },
        }
    }

    /// Takes what a client that has not asked anything yet does.
    fn receive_first_request(self, event: Event) -> (result: (Session, Option<Action>))
        requires
            self@.phase is Waiting,
            !(event is Sent),
            !(event is SendFailed),
        ensures
            follows(self@, self@.next(event@), result.0, result.1),
            failure_is_reported(self@.failure(event@), result.1),
    {
        match event {
            Event::DownstreamMessage(message) => {
                let (session, action) = self.take_first_message(message);
                (session, Some(action))
            },
            Event::DownstreamFailed(error) => self.failed(BAD_REQUEST, error.as_str()),
            Event::DownstreamEnded => (
                Session { phase: Phase::Done, ..self },
                Some(Action::Finish(None)),
            ),
            _ => (self, None),
        }
    }

    /// Takes a message of a client that has not asked anything yet.
    fn take_first_message(self, message: DownstreamMessage) -> (result: (Session, Action))
        requires
            self@.phase is Waiting,
        ensures
            (result.0@, result.1@) == self@.after_first_message(message@),
    {
        match message {
            DownstreamMessage::Ping(payload) => (
                Session { phase: Phase::Ponging, ..self },
                Action::SendDownstream(DownstreamMessage::Pong(payload)),
            ),
            DownstreamMessage::Pong(_) => (self, Action::ReceiveDownstream),
            DownstreamMessage::Close(frame) => (
                Session { phase: Phase::Leaving, ..self },
                Action::SendDownstream(DownstreamMessage::Close(frame)),
            ),
            data => {
                let payload: Vec<u8> = match data_payload(&data) {
                    Some(payload) => slice_to_vec(payload),
                    None => Vec::new(),
                };
                if payload.len() > self.limit {
                    let error = oversize_error(payload.len(), self.limit);
                    (
                        Session { phase: Phase::Refusing { error }, ..self },
                        Action::SendDownstream(
                            closing(
                                MESSAGE_TOO_BIG,
                                "response.create frame exceeds configured limit",
                            ),
                        ),
                    )
                } else {
                    let model = text_or_dash(request_model(payload.as_slice()));
                    (
                        Session { phase: Phase::Connecting { first: data }, model, ..self },
                        Action::Connect(payload),
                    )
                }
            },
        }
    }

    /// Takes what happens on one of the two connected sides.
    fn relay_frames(self, event: Event) -> (result: (Session, Option<Action>))
        requires
            self@.phase is Relaying,
        ensures
            follows(self@, self@.after_relayed(event@), result.0, result.1),
            failure_is_reported(self@.failure(event@), result.1),
    {
        match event {
            Event::DownstreamMessage(message) => {
                let last: bool = matches!(message, DownstreamMessage::Close(_));
                (
                    Session { phase: Phase::ForwardingUp { last }, ..self },
                    Some(Action::SendUpstream(downstream_to_upstream(message))),
                )
            },
            Event::DownstreamFailed(error) => {
                let text = with_context("reading downstream websocket failed: ", error.as_str());
                self.failed(BAD_GATEWAY, text.as_str())
            },
            Event::DownstreamEnded => (
                Session { phase: Phase::Closing, ..self },
                Some(Action::SendUpstream(normal_closure())),
            ),
            Event::UpstreamMessage(message) => {
                let usage = newer_usage(self.usage, message_usage(&message));
                let last: bool = matches!(message, UpstreamMessage::Close { .. });
                (
                    Session { phase: Phase::ForwardingDown { last }, usage, ..self },
                    Some(Action::SendDownstream(upstream_to_downstream(message))),
                )
            },
            Event::UpstreamFailed(error) => {
                let text = with_context("reading upstream websocket failed: ", error.as_str());
                self.failed(BAD_GATEWAY, text.as_str())
            },
            Event::UpstreamEnded => {
                proof {
                    reveal_strlit("");
                    assert(""@ =~= Seq::<char>::empty());
                }
                (
                    Session { phase: Phase::Closing, ..self },
                    Some(Action::SendDownstream(closing(NORMAL_CLOSURE, ""))),
                )
            },
            _ => (self, None),
        }
    }

    /// Takes that a message was sent.
    fn after_sent(self) -> (result: (Session, Option<Action>))
        ensures
            follows(self@, self@.after_sent(), result.0, result.1),
            failure_is_reported(self@.failure(EventView::Sent), result.1),
    {
        match self.phase {
            Phase::Ponging => (
                Session { phase: Phase::Waiting, ..self },
                Some(Action::ReceiveDownstream),
            ),
            Phase::Opening
            | Phase::ForwardingUp { last: false }
            | Phase::ForwardingDown { last: false } => (
                Session { phase: Phase::Relaying, ..self },
                Some(Action::ReceiveEither),
            ),
            Phase::ForwardingUp { last: true } | Phase::ForwardingDown { last: true } => Session {
                phase: Phase::Done,
                ..self
            }.recorded(SWITCHING_PROTOCOLS),
            phase => Session { phase, ..self }.after_farewell(),
        }
    }

    /// Takes that a message could not be sent.
    fn after_send_failed(self, error: String) -> (result: (Session, Option<Action>))
        ensures
            follows(self@, self@.after_send_failed(error@), result.0, result.1),
            failure_is_reported(self@.failure(EventView::SendFailed(error@)), result.1),
    {
        match self.phase {
            Phase::Ponging => self.failed(BAD_REQUEST, error.as_str()),
            Phase::Opening => {
                let text = with_context("sending first upstream frame failed: ", error.as_str());
                self.failed(BAD_GATEWAY, text.as_str())
            },
            Phase::ForwardingUp { .. } => {
                let text = with_context(
                    "sending upstream websocket frame failed: ",
                    error.as_str(),
                );
                self.failed(BAD_GATEWAY, text.as_str())
            },
            Phase::ForwardingDown { .. } => {
                let text = with_context(
                    "sending downstream websocket frame failed: ",
                    error.as_str(),
                );
                self.failed(BAD_GATEWAY, text.as_str())
            },
            phase => Session { phase, ..self }.after_farewell(),
        }
    }

    /// Takes that a message to a side that is being given up was sent, or could
    /// not be sent.
    fn after_farewell(self) -> (result: (Session, Option<Action>))
        ensures
            follows(self@, self@.after_farewell(), result.0, result.1),
            failure_is_reported(self@.failure(EventView::Sent), result.1),
    {
        match self.phase {
            Phase::Leaving => (
                Session { phase: Phase::Done, ..self },
                Some(Action::Finish(None)),
            ),
            Phase::Refusing { error } => Session { phase: Phase::Done, ..self }.failed(
                BAD_REQUEST,
                error.as_str(),
            ),
            Phase::Closing => self.recorded(SWITCHING_PROTOCOLS),
            Phase::Reporting { status } => (
                Session { phase: Phase::Disconnecting { status }, ..self },
                Some(Action::SendDownstream(proxy_error_close())),
            ),
            Phase::Disconnecting { status } => self.recorded(status),
            phase => (Session { phase, ..self }, None),
        }
    }

    /// Ends the session and records it.
    fn recorded(self, status: u16) -> (result: (Session, Option<Action>))
        ensures
            follows(self@, Some(self@.recorded(status)), result.0, result.1),
    {
        let record = AccessRecord {
            model: self.model.clone(),
            account: self.account.clone(),
            status,
            usage: self.usage,
        };
        (Session { phase: Phase::Done, ..self }, Some(Action::Finish(Some(record))))
    }

    /// Fails the session and tells the client so.
    fn failed(self, status: u16, error: &str) -> (result: (Session, Option<Action>))
        ensures
            follows(self@, Some(self@.failed(status, error@)), result.0, result.1),
            failure_is_reported(Some((status, error@)), result.1),
    {
        let payload = proxy_error_payload(status, error);
        (
            Session { phase: Phase::Reporting { status }, ..self },
            Some(Action::SendDownstream(DownstreamMessage::Text(payload))),
        )
    }
}

/// The contents of an event are all that it holds.
pub proof fn event_views_are_whole(
    downstream: DownstreamMessage,
    upstream: UpstreamMessage,
    text: String,
    status: u16,
)
    ensures
        Event::DownstreamMessage(downstream)@ == EventView::DownstreamMessage(downstream@),
        Event::DownstreamFailed(text)@ == EventView::DownstreamFailed(text@),
        Event::DownstreamEnded@ == EventView::DownstreamEnded,
        Event::UpstreamMessage(upstream)@ == EventView::UpstreamMessage(upstream@),
        Event::UpstreamFailed(text)@ == EventView::UpstreamFailed(text@),
        Event::UpstreamEnded@ == EventView::UpstreamEnded,
        Event::Connected(text)@ == EventView::Connected(text@),
        (Event::ConnectFailed { status, message: text })@ == (EventView::ConnectFailed {
            status,
            message: text@,
        }),
        Event::Sent@ == EventView::Sent,
        Event::SendFailed(text)@ == EventView::SendFailed(text@),
{
}

/// The contents of an action are all that it holds.
pub proof fn action_views_are_whole(
    downstream: DownstreamMessage,
    upstream: UpstreamMessage,
    payload: Vec<u8>,
    record: AccessRecord,
)
    ensures
        Action::ReceiveDownstream@ == ActionView::ReceiveDownstream,
        Action::ReceiveEither@ == ActionView::ReceiveEither,
        Action::Connect(payload)@ == ActionView::Connect(payload@),
        Action::SendDownstream(downstream)@ == ActionView::SendDownstream(downstream@),
        Action::SendUpstream(upstream)@ == ActionView::SendUpstream(upstream@),
        Action::Finish(None)@ == ActionView::Finish(None),
        Action::Finish(Some(record))@ == ActionView::Finish(
            Some(
                RecordView {
                    model: record.model@,
                    account: record.account@,
                    status: record.status,
                    usage: record.usage,
                },
            ),
        ),
{
}

/// A failure that is reported is reported in a text to the client, and that text
/// parses as the wrapped error with the status and the message of the failure.
pub proof fn reported_failures_can_be_parsed(status: u16, error: Seq<char>, action: Option<Action>)
    ensures
        failure_is_reported(Some((status, error)), action) <==> (action matches Some(
            Action::SendDownstream(DownstreamMessage::Text(text)),
        ) && parsed_text(text@) == Some(error_json(status, error))),
{
}

} // verus!
