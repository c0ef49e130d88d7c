//! What the relay reads from the frames it forwards: the model of the first
//! request and the token usage of completed responses.
use crate::json::{
    json_of, parse_bytes, parse_text, parsed_bytes, parsed_text, value_integer, value_member,
    value_text, Json,
};
use vstd::prelude::*;

verus! {

/// The characters of an optional string.
pub open spec fn optional_text(text: Option<String>) -> Option<Seq<char>> {
    match text {
        Some(text) => Some(text@),
        None => None,
    }
}

/// The model that a request names: its member `model`, where that is a string.
pub open spec fn requested_model(request: Json) -> Option<Seq<char>> {
    match request.member("model"@) {
        Some(model) => model.text(),
        None => None,
    }
}

/// The model that some bytes request, if they are a request that names one.
pub open spec fn model_in_bytes(payload: Seq<u8>) -> Option<Seq<char>> {
    match parsed_bytes(payload) {
        Some(request) => requested_model(request),
        None => None,
    }
}

/// What stands in the member `usage` of the member `response` of an event,
/// under `key`, where it is an integer.
pub open spec fn usage_member(event: Json, key: Seq<char>) -> Option<i64> {
    match event.member("response"@) {
        Some(response) => match response.member("usage"@) {
            Some(usage) => match usage.member(key) {
                Some(count) => count.integer(),
                None => None,
            },
            None => None,
        },
        None => None,
    }
}

/// Whether an event says of itself that it completes a response.
pub open spec fn is_completion(event: Json) -> bool {
    match event.member("type"@) {
        Some(kind) => kind.text() == Some("response.completed"@),
        None => false,
    }
}

/// The input and output tokens that an event reports: those of an event that
/// completes a response and gives both counts as integers.
pub open spec fn reported_usage(event: Json) -> Option<(i64, i64)> {
    match (usage_member(event, "input_tokens"@), usage_member(event, "output_tokens"@)) {
        (Some(input), Some(output)) => if is_completion(event) {
            Some((input, output))
        } else {
            None
        },
        _ => None,
    }
}

/// The usage that some text reports, if it is an event that reports one.
pub open spec fn usage_in_text(text: Seq<char>) -> Option<(i64, i64)> {
    match parsed_text(text) {
        Some(event) => reported_usage(event),
        None => None,
    }
}

/// The model named by the payload of a request, or `None` where the payload is
/// not JSON, is no object, or names no model.
pub fn request_model(payload: &[u8]) -> (model: Option<String>)
    ensures
        optional_text(model) == model_in_bytes(payload@),
{
    match parse_bytes(payload) {
        Ok(request) => model_of_request(&request),
        Err(_) => None,
    }
}

/// The model named by a parsed request.
pub fn model_of_request(request: &serde_json::Value) -> (model: Option<String>)
    ensures
        optional_text(model) == requested_model(json_of(*request)),
{
    match value_member(request, "model") {
        Some(model) => match value_text(model) {
            Some(text) => Some(text.to_owned()),
            None => None,
        },
        None => None,
    }
}

/// The input and output tokens of a `response.completed` event, or `None` for
/// any other text.
pub fn completed_usage(payload: &str) -> (usage: Option<(i64, i64)>)
    ensures
        usage == usage_in_text(payload@),
{
    match parse_text(payload) {
        Ok(event) => usage_of_event(&event),
        Err(_) => None,
    }
}

/// The input and output tokens of a parsed event.
pub fn usage_of_event(event: &serde_json::Value) -> (usage: Option<(i64, i64)>)
    ensures
        usage == reported_usage(json_of(*event)),
{
    let kind = value_text(value_member(event, "type")?)?;
    if !(kind.to_owned() == "response.completed".to_owned()) {
        return None;
    }
    let usage = value_member(value_member(event, "response")?, "usage")?;
    Some(
        (
            value_integer(value_member(usage, "input_tokens")?)?,
            value_integer(value_member(usage, "output_tokens")?)?,
        ),
    )
}

/// An optional string shows all its characters, and shows nothing only where
/// there is none.
pub proof fn optional_text_is_whole(text: String)
    ensures
        optional_text(Some(text)) == Some(text@),
        optional_text(None) is None,
{
}

/// A request that names a model is read as naming it, with every character of
/// the name and whatever else the request holds.
pub proof fn named_model_is_read_whole(members: Map<Seq<char>, Json>, name: Seq<char>)
    requires
        members.contains_key("model"@),
        members["model"@] == Json::Text(name),
    ensures
        requested_model(Json::Object(members)) == Some(name),
        forall|payload: Seq<u8>| #[trigger]
            parsed_bytes(payload) == Some(Json::Object(members)) ==> model_in_bytes(payload)
                == Some(name),
{
}

/// A model is only read from an object that has a string under `model`, and it
/// is that string.
pub proof fn only_named_models_are_read(request: Json)
    ensures
        requested_model(request) matches Some(name) ==> (request matches Json::Object(members)
            && members.contains_key("model"@) && members["model"@] == Json::Text(name)),
{
}

/// A model is only read from bytes that parse as such an object.
pub proof fn only_requests_name_models(payload: Seq<u8>)
    ensures
        model_in_bytes(payload) matches Some(name) ==> (parsed_bytes(payload) matches Some(
            Json::Object(members),
        ) && members.contains_key("model"@) && members["model"@] == Json::Text(name)),
{
}

/// An event that completes a response and counts its tokens is read as reporting
/// these counts, the input first, whatever they are and whatever else the event
/// holds.
pub proof fn completion_usage_is_read_exactly(
    event: Map<Seq<char>, Json>,
    response: Map<Seq<char>, Json>,
    usage: Map<Seq<char>, Json>,
    input: i64,
    output: i64,
)
    requires
        event.contains_key("type"@),
        event["type"@] == Json::Text("response.completed"@),
        event.contains_key("response"@),
        event["response"@] == Json::Object(response),
        response.contains_key("usage"@),
        response["usage"@] == Json::Object(usage),
        usage.contains_key("input_tokens"@),
        usage["input_tokens"@] == Json::Integer(input as int),
        usage.contains_key("output_tokens"@),
        usage["output_tokens"@] == Json::Integer(output as int),
    ensures
        reported_usage(Json::Object(event)) == Some((input, output)),
        forall|text: Seq<char>| #[trigger]
            parsed_text(text) == Some(Json::Object(event)) ==> usage_in_text(text) == Some(
                (input, output),
            ),
{
}

/// Usage is only read from an event that says it completes a response and holds
/// both counts as integers, and it is these counts.
pub proof fn only_completions_report_usage(event: Json)
    ensures
        reported_usage(event) matches Some((input, output)) ==> (event matches Json::Object(members)
            && members.contains_key("type"@) && members["type"@] == Json::Text(
            "response.completed"@,
        ) && members.contains_key("response"@) && (members["response"@] matches Json::Object(
            response,
        ) && response.contains_key("usage"@) && (response["usage"@] matches Json::Object(usage)
            && usage.contains_key("input_tokens"@) && usage["input_tokens"@] == Json::Integer(
            input as int,
        ) && usage.contains_key("output_tokens"@) && usage["output_tokens"@] == Json::Integer(
            output as int,
        )))),
{
}

/// A text reports the usage that the event it parses as reports, and a text that
/// does not parse reports none.
pub proof fn only_events_report_usage(text: Seq<char>)
    ensures
        match parsed_text(text) {
            Some(event) => usage_in_text(text) == reported_usage(event),
            None => usage_in_text(text) is None,
        },
{
}

} // verus!
