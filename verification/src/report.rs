//! How the relay tells the client that a session failed: a JSON error, then a
//! close message.
use crate::json::{
    integer_value, map_insert, new_map, object_value, parsed_text, text_value, value_to_text,
    json_text, Json, MAX_NESTING,
};
use crate::message::{closing, CloseFrameView, DownstreamMessage, DownstreamView};
use vstd::prelude::*;

verus! {

/// The close code for a relay that failed.
pub const INTERNAL_ERROR: u16 = 1011;

/// The wrapped error that is sent for a failed session.
pub open spec fn error_json(status: u16, message: Seq<char>) -> Json {
    Json::Object(
        map![
            "type"@ => Json::Text("error"@),
            "status"@ => Json::Integer(status as int),
            "error"@ => Json::Object(map![
                "type"@ => Json::Text("upstream_error"@),
                "code"@ => Json::Text("websocket_proxy_error"@),
                "message"@ => Json::Text(message),
            ]),
        ],
    )
}

/// The message that carries the wrapped error.
pub open spec fn error_message(status: u16, message: Seq<char>) -> DownstreamView {
    DownstreamView::Text(json_text(error_json(status, message)))
}

/// The close message that follows the wrapped error.
pub open spec fn failure_close() -> DownstreamView {
    DownstreamView::closing(INTERNAL_ERROR, "upstream websocket proxy failed"@)
}

/// The text of the wrapped error, from which its contents can be parsed back.
pub fn proxy_error_payload(status: u16, message: &str) -> (payload: String)
    ensures
        payload@ == json_text(error_json(status, message@)),
        parsed_text(payload@) == Some(error_json(status, message@)),
{
    let mut error = new_map();
    map_insert(&mut error, "type".to_owned(), text_value("upstream_error"));
    map_insert(&mut error, "code".to_owned(), text_value("websocket_proxy_error"));
    map_insert(&mut error, "message".to_owned(), text_value(message));
    let mut report = new_map();
    map_insert(&mut report, "type".to_owned(), text_value("error"));
    map_insert(&mut report, "status".to_owned(), integer_value(status));
    map_insert(&mut report, "error".to_owned(), object_value(error));
    let value = object_value(report);
    proof {
        error_json_is_plain(status, message@);
    }
    value_to_text(&value)
}

/// The close message that follows the wrapped error.
pub fn proxy_error_close() -> (message: DownstreamMessage)
    ensures
        message@ == failure_close(),
{
    closing(INTERNAL_ERROR, "upstream websocket proxy failed")
}

/// The wrapped error holds no double and no reserved key, and nests within what
/// a parser allows.
proof fn error_json_is_plain(status: u16, message: Seq<char>)
    ensures
        error_json(status, message).plain_within(MAX_NESTING as nat),
{
    reveal_with_fuel(Json::plain_within, 3);
    reveal_strlit("type");
    reveal_strlit("status");
    reveal_strlit("error");
    reveal_strlit("code");
    reveal_strlit("message");
    reveal_strlit("$serde_json::private::RawValue");
    reveal_strlit("$serde_json::private::Number");
    assert("$serde_json::private::RawValue"@.len() == 30);
    assert("$serde_json::private::Number"@.len() == 28);
    assert("type"@.len() == 4 && "status"@.len() == 6 && "error"@.len() == 5);
    assert("code"@.len() == 4 && "message"@.len() == 7);
}

/// The wrapped error has the shape that clients of the service know: an object
/// of type `error` with the status, and in it an `upstream_error` with the code
/// `websocket_proxy_error` and the message.
pub proof fn error_json_has_wrapped_shape(status: u16, message: Seq<char>)
    ensures
        error_json(status, message).member("type"@) == Some(Json::Text("error"@)),
        error_json(status, message).member("status"@) == Some(Json::Integer(status as int)),
        error_json(status, message).member("error"@) matches Some(error) && {
            &&& error.member("type"@) == Some(Json::Text("upstream_error"@))
            &&& error.member("code"@) == Some(Json::Text("websocket_proxy_error"@))
            &&& error.member("message"@) == Some(Json::Text(message))
        },
{
    reveal_strlit("type");
    reveal_strlit("status");
    reveal_strlit("error");
    reveal_strlit("code");
    reveal_strlit("message");
    assert("type"@.len() == 4 && "status"@.len() == 6 && "error"@.len() == 5);
    assert("code"@.len() == 4 && "message"@.len() == 7);
    assert("type"@[0] == 't' && "code"@[0] == 'c');
}

/// The wrapped error holds nothing but what clients know: no further members,
/// neither in the object nor in the error in it.
pub proof fn error_json_holds_nothing_else(status: u16, message: Seq<char>, key: Seq<char>)
    ensures
        key != "type"@ && key != "status"@ && key != "error"@ ==> error_json(
            status,
            message,
        ).member(key) is None,
        key != "type"@ && key != "code"@ && key != "message"@ ==> (error_json(
            status,
            message,
        ).member("error"@) matches Some(error) && error.member(key) is None),
{
    error_json_has_wrapped_shape(status, message);
}

/// A failure is told in a text message that is the wrapped error of its status
/// and message, and is followed by a close message.
pub proof fn failures_are_told_in_json(status: u16, message: Seq<char>)
    ensures
        error_message(status, message) == DownstreamView::Text(
            json_text(error_json(status, message)),
        ),
        failure_close() == DownstreamView::Close(
            Some(CloseFrameView { code: 1011, reason: "upstream websocket proxy failed"@ }),
        ),
{
}

} // verus!
