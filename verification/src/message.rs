//! WebSocket messages on both sides of the relay, and their conversion.
use crate::close_code::{
    close_code_from_number, close_code_number, close_code_of, number_of_close_code,
};
use vstd::prelude::*;
use vstd::utf8::encode_utf8;

verus! {

/// Why a downstream connection is closed.
#[derive(Debug, PartialEq, Eq)]
pub struct CloseFrame {
    pub code: u16,
    pub reason: String,
}

/// A message on the connection to the client.
#[derive(Debug, PartialEq, Eq)]
pub enum DownstreamMessage {
    Text(String),
    Binary(Vec<u8>),
    Ping(Vec<u8>),
    Pong(Vec<u8>),
    Close(Option<CloseFrame>),
}

/// A message on the connection to the upstream service.
#[derive(Debug, PartialEq, Eq)]
pub enum UpstreamMessage {
    Text(String),
    Binary(Vec<u8>),
    Ping(Vec<u8>),
    Pong(Vec<u8>),
    Close { code: reqwest_websocket::CloseCode, reason: String },
}

/// The contents of a [`CloseFrame`].
pub struct CloseFrameView {
    pub code: u16,
    pub reason: Seq<char>,
}

/// The contents of a [`DownstreamMessage`].
pub enum DownstreamView {
    Text(Seq<char>),
    Binary(Seq<u8>),
    Ping(Seq<u8>),
    Pong(Seq<u8>),
    Close(Option<CloseFrameView>),
}

/// The contents of an [`UpstreamMessage`].
pub enum UpstreamView {
    Text(Seq<char>),
    Binary(Seq<u8>),
    Ping(Seq<u8>),
    Pong(Seq<u8>),
    Close { code: reqwest_websocket::CloseCode, reason: Seq<char> },
}

impl View for CloseFrame {
    type V = CloseFrameView;

    open spec fn view(&self) -> CloseFrameView {
        CloseFrameView { code: self.code, reason: self.reason@ }
    }
}

impl View for DownstreamMessage {
    type V = DownstreamView;

    open spec fn view(&self) -> DownstreamView {
        match self {
            DownstreamMessage::Text(text) => DownstreamView::Text(text@),
            DownstreamMessage::Binary(bytes) => DownstreamView::Binary(bytes@),
            DownstreamMessage::Ping(bytes) => DownstreamView::Ping(bytes@),
            DownstreamMessage::Pong(bytes) => DownstreamView::Pong(bytes@),
            DownstreamMessage::Close(Some(frame)) => DownstreamView::Close(Some(frame@)),
            DownstreamMessage::Close(None) => DownstreamView::Close(None),
        }
    }
}

impl View for UpstreamMessage {
    type V = UpstreamView;

    open spec fn view(&self) -> UpstreamView {
        match self {
            UpstreamMessage::Text(text) => UpstreamView::Text(text@),
            UpstreamMessage::Binary(bytes) => UpstreamView::Binary(bytes@),
            UpstreamMessage::Ping(bytes) => UpstreamView::Ping(bytes@),
            UpstreamMessage::Pong(bytes) => UpstreamView::Pong(bytes@),
            UpstreamMessage::Close { code, reason } => UpstreamView::Close {
                code: *code,
                reason: reason@,
            },
        }
    }
}

/// The close code of a connection that is closed because its work is done.
pub const NORMAL_CLOSURE: u16 = 1000;

impl DownstreamView {
    /// The bytes of a data message: the UTF-8 encoding of a text, or the bytes
    /// of a binary message. Control messages have none.
    pub open spec fn payload(self) -> Option<Seq<u8>> {
        match self {
            DownstreamView::Text(text) => Some(encode_utf8(text)),
            DownstreamView::Binary(bytes) => Some(bytes),
            _ => None,
        }
    }

    /// The close message with the given code and reason.
    pub open spec fn closing(code: u16, reason: Seq<char>) -> DownstreamView {
        DownstreamView::Close(Some(CloseFrameView { code, reason }))
    }
}

impl UpstreamView {
    /// The close message of a relay that ends without a stated reason.
    pub open spec fn normal_closure() -> UpstreamView {
        UpstreamView::Close { code: close_code_of(NORMAL_CLOSURE), reason: Seq::empty() }
    }
}

/// The upstream message that stands for a downstream one: the same message,
/// with a close message that gives no reason made a normal closure.
pub open spec fn to_upstream(message: DownstreamView) -> UpstreamView {
    match message {
        DownstreamView::Text(text) => UpstreamView::Text(text),
        DownstreamView::Binary(bytes) => UpstreamView::Binary(bytes),
        DownstreamView::Ping(bytes) => UpstreamView::Ping(bytes),
        DownstreamView::Pong(bytes) => UpstreamView::Pong(bytes),
        DownstreamView::Close(Some(frame)) => UpstreamView::Close {
            code: close_code_of(frame.code),
            reason: frame.reason,
        },
        DownstreamView::Close(None) => UpstreamView::normal_closure(),
    }
}

/// The downstream message that stands for an upstream one: the same message.
pub open spec fn to_downstream(message: UpstreamView) -> DownstreamView {
    match message {
        UpstreamView::Text(text) => DownstreamView::Text(text),
        UpstreamView::Binary(bytes) => DownstreamView::Binary(bytes),
        UpstreamView::Ping(bytes) => DownstreamView::Ping(bytes),
        UpstreamView::Pong(bytes) => DownstreamView::Pong(bytes),
        UpstreamView::Close { code, reason } => DownstreamView::closing(
            close_code_number(code),
            reason,
        ),
    }
}

/// The bytes of a data message, or `None` for a control message.
pub fn data_payload(message: &DownstreamMessage) -> (payload: Option<&[u8]>)
    ensures
        match payload {
            Some(bytes) => message@.payload() == Some(bytes@),
            None => message@.payload() is None,
        },
        match message {
            DownstreamMessage::Text(text) => payload matches Some(bytes) && bytes@ == encode_utf8(
                text@,
            ),
            DownstreamMessage::Binary(data) => payload matches Some(bytes) && bytes@ == data@,
            _ => payload is None,
        },
{
    match message {
        DownstreamMessage::Text(text) => Some(text.as_str().as_bytes()),
        DownstreamMessage::Binary(bytes) => Some(bytes.as_slice()),
        _ => None,
    }
}

/// The message to send upstream for one that came from the client.
///
/// Nothing is lost on the way: converted back, it is the message that came,
/// but for a close message without a frame, which comes back as a normal
/// closure.
pub fn downstream_to_upstream(message: DownstreamMessage) -> (converted: UpstreamMessage)
    ensures
        converted@ == to_upstream(message@),
        message@ != DownstreamView::Close(None) ==> to_downstream(converted@) == message@,
        message@ == DownstreamView::Close(None) ==> to_downstream(converted@)
            == DownstreamView::closing(NORMAL_CLOSURE, Seq::empty()),
        match message {
            DownstreamMessage::Text(text) => converted matches UpstreamMessage::Text(same)
                && same@ == text@,
            DownstreamMessage::Binary(bytes) => converted matches UpstreamMessage::Binary(same)
                && same@ == bytes@,
            DownstreamMessage::Ping(bytes) => converted matches UpstreamMessage::Ping(same)
                && same@ == bytes@,
            DownstreamMessage::Pong(bytes) => converted matches UpstreamMessage::Pong(same)
                && same@ == bytes@,
            DownstreamMessage::Close(Some(frame)) => converted matches UpstreamMessage::Close {
                code,
                reason,
            } && close_code_number(code) == frame.code && reason@ == frame.reason@,
            DownstreamMessage::Close(None) => converted matches UpstreamMessage::Close {
                code,
                reason,
            } && close_code_number(code) == 1000 && reason@.len() == 0,
        },
{
    match message {
        DownstreamMessage::Text(text) => UpstreamMessage::Text(text),
        DownstreamMessage::Binary(bytes) => UpstreamMessage::Binary(bytes),
        DownstreamMessage::Ping(bytes) => UpstreamMessage::Ping(bytes),
        DownstreamMessage::Pong(bytes) => UpstreamMessage::Pong(bytes),
        DownstreamMessage::Close(Some(frame)) => UpstreamMessage::Close {
            code: close_code_from_number(frame.code),
            reason: frame.reason,
        },
        DownstreamMessage::Close(None) => normal_closure(),
    }
}

/// The message to send to the client for one that came from upstream.
pub fn upstream_to_downstream(message: UpstreamMessage) -> (converted: DownstreamMessage)
    ensures
        converted@ == to_downstream(message@),
        match message {
            UpstreamMessage::Text(text) => converted matches DownstreamMessage::Text(same)
                && same@ == text@,
            UpstreamMessage::Binary(bytes) => converted matches DownstreamMessage::Binary(same)
                && same@ == bytes@,
            UpstreamMessage::Ping(bytes) => converted matches DownstreamMessage::Ping(same)
                && same@ == bytes@,
            UpstreamMessage::Pong(bytes) => converted matches DownstreamMessage::Pong(same)
                && same@ == bytes@,
            UpstreamMessage::Close { code, reason } => converted matches DownstreamMessage::Close(
                Some(frame),
            ) && frame.code == close_code_number(code) && frame.reason@ == reason@,
        },
{
    match message {
        UpstreamMessage::Text(text) => DownstreamMessage::Text(text),
        UpstreamMessage::Binary(bytes) => DownstreamMessage::Binary(bytes),
        UpstreamMessage::Ping(bytes) => DownstreamMessage::Ping(bytes),
        UpstreamMessage::Pong(bytes) => DownstreamMessage::Pong(bytes),
        UpstreamMessage::Close { code, reason } => DownstreamMessage::Close(
            Some(CloseFrame { code: number_of_close_code(code), reason }),
        ),
    }
}

/// The close message that ends the upstream connection when the client is gone.
pub fn normal_closure() -> (message: UpstreamMessage)
    ensures
        message@ == UpstreamView::normal_closure(),
        to_downstream(message@) == DownstreamView::closing(NORMAL_CLOSURE, Seq::empty()),
{
    UpstreamMessage::Close { code: close_code_from_number(NORMAL_CLOSURE), reason: String::new() }
}

/// A close message for the client, with a code and a reason.
pub fn closing(code: u16, reason: &str) -> (message: DownstreamMessage)
    ensures
        message@ == DownstreamView::closing(code, reason@),
{
    DownstreamMessage::Close(Some(CloseFrame { code, reason: reason.to_owned() }))
}

/// An upstream message whose close code, if it has one, is what some number
/// converts to comes back unchanged from the client's side.
pub proof fn upstream_round_trip(message: UpstreamView)
    requires
        message matches UpstreamView::Close { code, .. } ==> code == close_code_of(
            close_code_number(code),
        ),
    ensures
        to_upstream(to_downstream(message)) == message,
{
}

/// A data message is sent to upstream as the same kind of message with the very
/// same contents, and so are pings and pongs.
pub proof fn contents_are_kept_upstream(text: Seq<char>, bytes: Seq<u8>)
    ensures
        to_upstream(DownstreamView::Text(text)) == UpstreamView::Text(text),
        to_upstream(DownstreamView::Binary(bytes)) == UpstreamView::Binary(bytes),
        to_upstream(DownstreamView::Ping(bytes)) == UpstreamView::Ping(bytes),
        to_upstream(DownstreamView::Pong(bytes)) == UpstreamView::Pong(bytes),
{
}

/// A data message is sent to the client as the same kind of message with the
/// very same contents, and so are pings and pongs.
pub proof fn contents_are_kept_downstream(text: Seq<char>, bytes: Seq<u8>)
    ensures
        to_downstream(UpstreamView::Text(text)) == DownstreamView::Text(text),
        to_downstream(UpstreamView::Binary(bytes)) == DownstreamView::Binary(bytes),
        to_downstream(UpstreamView::Ping(bytes)) == DownstreamView::Ping(bytes),
        to_downstream(UpstreamView::Pong(bytes)) == DownstreamView::Pong(bytes),
{
}

/// A close message is sent on with its code and its reason; one without a frame
/// is sent to upstream as a normal closure without a reason.
pub proof fn close_frames_are_kept(
    number: u16,
    code: reqwest_websocket::CloseCode,
    reason: Seq<char>,
)
    ensures
        to_upstream(DownstreamView::Close(Some(CloseFrameView { code: number, reason })))
            == (UpstreamView::Close { code: close_code_of(number), reason }),
        to_upstream(DownstreamView::Close(None)) == (UpstreamView::Close {
            code: close_code_of(1000),
            reason: Seq::empty(),
        }),
        to_downstream(UpstreamView::Close { code, reason }) == DownstreamView::Close(
            Some(CloseFrameView { code: close_code_number(code), reason }),
        ),
{
}

/// The payload of a text is its UTF-8 encoding, that of a binary message its
/// bytes, and no other message has one.
pub proof fn payloads_are_those_of_data(
    text: Seq<char>,
    bytes: Seq<u8>,
    frame: Option<CloseFrameView>,
)
    ensures
        DownstreamView::Text(text).payload() == Some(encode_utf8(text)),
        DownstreamView::Binary(bytes).payload() == Some(bytes),
        DownstreamView::Ping(bytes).payload() is None,
        DownstreamView::Pong(bytes).payload() is None,
        DownstreamView::Close(frame).payload() is None,
{
}

/// The contents of a downstream message are all that it holds.
pub proof fn downstream_views_are_whole(text: String, bytes: Vec<u8>, frame: CloseFrame)
    ensures
        DownstreamMessage::Text(text)@ == DownstreamView::Text(text@),
        DownstreamMessage::Binary(bytes)@ == DownstreamView::Binary(bytes@),
        DownstreamMessage::Ping(bytes)@ == DownstreamView::Ping(bytes@),
        DownstreamMessage::Pong(bytes)@ == DownstreamView::Pong(bytes@),
        DownstreamMessage::Close(Some(frame))@ == DownstreamView::Close(
            Some(CloseFrameView { code: frame.code, reason: frame.reason@ }),
        ),
        DownstreamMessage::Close(None)@ == DownstreamView::Close(None),
{
}

/// The contents of an upstream message are all that it holds.
pub proof fn upstream_views_are_whole(
    text: String,
    bytes: Vec<u8>,
    code: reqwest_websocket::CloseCode,
)
    ensures
        UpstreamMessage::Text(text)@ == UpstreamView::Text(text@),
        UpstreamMessage::Binary(bytes)@ == UpstreamView::Binary(bytes@),
        UpstreamMessage::Ping(bytes)@ == UpstreamView::Ping(bytes@),
        UpstreamMessage::Pong(bytes)@ == UpstreamView::Pong(bytes@),
        (UpstreamMessage::Close { code, reason: text })@ == (UpstreamView::Close {
            code,
            reason: text@,
        }),
{
}

/// A close message holds the code and the reason it is made with.
pub proof fn close_messages_hold_code_and_reason(code: u16, reason: Seq<char>)
    ensures
        DownstreamView::closing(code, reason) == DownstreamView::Close(
            Some(CloseFrameView { code, reason }),
        ),
        UpstreamView::normal_closure() == (UpstreamView::Close {
            code: close_code_of(1000),
            reason: Seq::empty(),
        }),
{
}

} // verus!
