use reqwest_websocket::CloseCode;
use responses_relay::message::{CloseFrame, DownstreamMessage, UpstreamMessage};
use responses_relay::report::proxy_error_payload;
use responses_relay::session::{
    message_usage, newer_usage, text_or_dash, AccessRecord, Action, Event, Session,
};

const FIRST: &str = r#"{"type":"response.create","model":"gpt-5.6-sol","service_tier":"priority","input":[{"role":"user","content":"hello"}],"tools":[{"type":"function","name":"shell","parameters":{"type":"object"}}],"reasoning":{"summary":"auto"},"include":["reasoning.encrypted_content"],"future_field":{"kept":true}}"#;
const SECOND: &str = r#"{"type":"response.create","model":"gpt-5.6-sol","previous_response_id":"resp-1","input":[],"stream":true,"unknown_continuation_field":[1,2,3]}"#;

fn text(text: &str) -> DownstreamMessage {
    DownstreamMessage::Text(text.to_string())
}

fn up(text: &str) -> UpstreamMessage {
    UpstreamMessage::Text(text.to_string())
}

fn close(code: u16, reason: &str) -> DownstreamMessage {
    DownstreamMessage::Close(Some(CloseFrame { code, reason: reason.to_string() }))
}

fn failed_close() -> DownstreamMessage {
    close(1011, "upstream websocket proxy failed")
}

fn record(model: &str, account: &str, status: u16, usage: Option<(i64, i64)>) -> Action {
    Action::Finish(Some(AccessRecord {
        model: model.to_string(),
        account: account.to_string(),
        status,
        usage,
    }))
}

/// Steps a session and checks each action; an action of `None` means that the
/// event is not one the session waits for.
fn play(mut session: Session, script: Vec<(Event, Option<Action>)>) -> Session {
    for (event, expected) in script {
        let (next, action) = session.step(event);
        assert_eq!(action, expected);
        session = next;
    }
    session
}

fn waiting() -> Session {
    let (session, action) = Session::start(1024);
    assert_eq!(action, Action::ReceiveDownstream);
    session
}

fn connecting() -> Session {
    play(
        waiting(),
        vec![(
            Event::DownstreamMessage(text(FIRST)),
            Some(Action::Connect(FIRST.as_bytes().to_vec())),
        )],
    )
}

fn opening() -> Session {
    play(
        connecting(),
        vec![(
            Event::Connected("ws-account".to_string()),
            Some(Action::SendUpstream(up(FIRST))),
        )],
    )
}

fn relaying() -> Session {
    play(opening(), vec![(Event::Sent, Some(Action::ReceiveEither))])
}

/// The end of a session that failed with this error.
fn failure(session: Session, event: Event, error: &str, model: &str, account: &str, status: u16) {
    let session = play(
        session,
        vec![
            (
                event,
                Some(Action::SendDownstream(DownstreamMessage::Text(proxy_error_payload(
                    status, error,
                )))),
            ),
            (Event::Sent, Some(Action::SendDownstream(failed_close()))),
            (Event::SendFailed("gone".to_string()), Some(record(model, account, status, None))),
            (Event::Sent, None),
        ],
    );
    let (_, action) = session.step(Event::DownstreamEnded);
    assert_eq!(action, None);
}

#[test]
fn frames_are_relayed_unchanged_and_in_order() {
    let events = [
        r#"{"type":"response.created","response":{"id":"resp-1"}}"#,
        r#"{"type":"future.codex.event","payload":{"kept":true,"request":1}}"#,
        r#"{"type":"response.output_text.delta","delta":"reply-1"}"#,
        r#"{"type":"response.completed","response":{"id":"resp-1","usage":{"input_tokens":3,"output_tokens":2,"total_tokens":5}}}"#,
    ];
    let mut session = relaying();
    for event in events {
        session = play(
            session,
            vec![
                (Event::UpstreamMessage(up(event)), Some(Action::SendDownstream(text(event)))),
                (Event::Sent, Some(Action::ReceiveEither)),
            ],
        );
    }
    play(
        session,
        vec![
            (Event::DownstreamMessage(text(SECOND)), Some(Action::SendUpstream(up(SECOND)))),
            (Event::Sent, Some(Action::ReceiveEither)),
            (
                Event::UpstreamMessage(UpstreamMessage::Binary(vec![1])),
                Some(Action::SendDownstream(DownstreamMessage::Binary(vec![1]))),
            ),
            (Event::Sent, Some(Action::ReceiveEither)),
            (
                Event::DownstreamMessage(DownstreamMessage::Ping(vec![2])),
                Some(Action::SendUpstream(UpstreamMessage::Ping(vec![2]))),
            ),
            (Event::Sent, Some(Action::ReceiveEither)),
            (
                Event::DownstreamMessage(close(1000, "")),
                Some(Action::SendUpstream(UpstreamMessage::Close {
                    code: CloseCode::Normal,
                    reason: String::new(),
                })),
            ),
            (Event::Sent, Some(record("gpt-5.6-sol", "ws-account", 101, Some((3, 2))))),
            (Event::Sent, None),
        ],
    );
}

#[test]
fn the_newest_completion_is_recorded() {
    let first = r#"{"type":"response.completed","response":{"usage":{"input_tokens":3,"output_tokens":2}}}"#;
    let second = r#"{"type":"response.completed","response":{"usage":{"input_tokens":30,"output_tokens":20}}}"#;
    play(
        relaying(),
        vec![
            (Event::UpstreamMessage(up(first)), Some(Action::SendDownstream(text(first)))),
            (Event::Sent, Some(Action::ReceiveEither)),
            (Event::UpstreamMessage(up(second)), Some(Action::SendDownstream(text(second)))),
            (Event::Sent, Some(Action::ReceiveEither)),
            (Event::UpstreamMessage(up("{}")), Some(Action::SendDownstream(text("{}")))),
            (Event::Sent, Some(Action::ReceiveEither)),
            (Event::UpstreamEnded, Some(Action::SendDownstream(close(1000, "")))),
            (Event::Sent, Some(record("gpt-5.6-sol", "ws-account", 101, Some((30, 20))))),
        ],
    );
}

#[test]
fn a_completion_counts_even_if_it_cannot_be_forwarded() {
    let event = r#"{"type":"response.completed","response":{"usage":{"input_tokens":3,"output_tokens":2}}}"#;
    let error = "sending downstream websocket frame failed: reset";
    play(
        relaying(),
        vec![
            (Event::UpstreamMessage(up(event)), Some(Action::SendDownstream(text(event)))),
            (
                Event::SendFailed("reset".to_string()),
                Some(Action::SendDownstream(DownstreamMessage::Text(proxy_error_payload(
                    502, error,
                )))),
            ),
            (
                Event::SendFailed("reset".to_string()),
                Some(Action::SendDownstream(failed_close())),
            ),
            (
                Event::SendFailed("reset".to_string()),
                Some(record("gpt-5.6-sol", "ws-account", 502, Some((3, 2)))),
            ),
        ],
    );
}

#[test]
fn a_binary_completion_is_not_read() {
    let event = r#"{"type":"response.completed","response":{"usage":{"input_tokens":3,"output_tokens":2}}}"#;
    assert_eq!(message_usage(&up(event)), Some((3, 2)));
    assert_eq!(message_usage(&UpstreamMessage::Binary(event.as_bytes().to_vec())), None);
    assert_eq!(message_usage(&up("{}")), None);
}

#[test]
fn a_request_at_the_limit_is_taken() {
    let (session, _) = Session::start(3);
    play(
        session,
        vec![(
            Event::DownstreamMessage(DownstreamMessage::Binary(vec![1, 2, 3])),
            Some(Action::Connect(vec![1, 2, 3])),
        )],
    );
}

#[test]
fn an_oversized_request_is_refused() {
    for outcome in [Event::Sent, Event::SendFailed("gone".to_string())] {
        let (session, _) = Session::start(3);
        // Four bytes in two characters: the size is counted in bytes.
        let session = play(
            session,
            vec![(
                Event::DownstreamMessage(text("\u{e9}\u{e9}")),
                Some(Action::SendDownstream(close(
                    1009,
                    "response.create frame exceeds configured limit",
                ))),
            )],
        );
        failure(
            session,
            outcome,
            "websocket request frame is 4 bytes; limit is 3",
            "-",
            "-",
            400,
        );
    }
}

#[test]
fn pings_before_the_first_request_are_answered() {
    let session = play(
        waiting(),
        vec![
            (
                Event::DownstreamMessage(DownstreamMessage::Ping(vec![5, 6])),
                Some(Action::SendDownstream(DownstreamMessage::Pong(vec![5, 6]))),
            ),
            (Event::Sent, Some(Action::ReceiveDownstream)),
            (
                Event::DownstreamMessage(DownstreamMessage::Pong(vec![7])),
                Some(Action::ReceiveDownstream),
            ),
        ],
    );
    assert_eq!(session, waiting());
}

#[test]
fn a_pong_that_cannot_be_sent_fails_the_session() {
    let session = play(
        waiting(),
        vec![(
            Event::DownstreamMessage(DownstreamMessage::Ping(vec![])),
            Some(Action::SendDownstream(DownstreamMessage::Pong(vec![]))),
        )],
    );
    failure(session, Event::SendFailed("broken".to_string()), "broken", "-", "-", 400);
}

#[test]
fn a_client_that_leaves_is_not_recorded() {
    play(
        waiting(),
        vec![
            (Event::DownstreamEnded, Some(Action::Finish(None))),
            (Event::DownstreamEnded, None),
        ],
    );
    for outcome in [Event::Sent, Event::SendFailed("gone".to_string())] {
        play(
            waiting(),
            vec![
                (
                    Event::DownstreamMessage(close(1001, "away")),
                    Some(Action::SendDownstream(close(1001, "away"))),
                ),
                (outcome, Some(Action::Finish(None))),
            ],
        );
    }
    play(
        waiting(),
        vec![(
            Event::DownstreamMessage(DownstreamMessage::Close(None)),
            Some(Action::SendDownstream(DownstreamMessage::Close(None))),
        )],
    );
}

#[test]
fn failures_say_what_failed() {
    let error = || "e".to_string();
    failure(waiting(), Event::DownstreamFailed(error()), "e", "-", "-", 400);
    failure(
        connecting(),
        Event::ConnectFailed { status: 429, message: error() },
        "e",
        "gpt-5.6-sol",
        "-",
        429,
    );
    let cases = [
        (opening(), Event::SendFailed(error()), "sending first upstream frame failed: e"),
        (relaying(), Event::DownstreamFailed(error()), "reading downstream websocket failed: e"),
        (relaying(), Event::UpstreamFailed(error()), "reading upstream websocket failed: e"),
    ];
    for (session, event, message) in cases {
        failure(session, event, message, "gpt-5.6-sol", "ws-account", 502);
    }
    let forwarding = play(
        relaying(),
        vec![(Event::DownstreamMessage(text("x")), Some(Action::SendUpstream(up("x"))))],
    );
    failure(
        forwarding,
        Event::SendFailed(error()),
        "sending upstream websocket frame failed: e",
        "gpt-5.6-sol",
        "ws-account",
        502,
    );
}

#[test]
fn a_close_that_cannot_be_forwarded_fails_the_session() {
    let session = play(
        relaying(),
        vec![(
            Event::UpstreamMessage(UpstreamMessage::Close {
                code: CloseCode::Restart,
                reason: "later".to_string(),
            }),
            Some(Action::SendDownstream(close(1012, "later"))),
        )],
    );
    failure(
        session,
        Event::SendFailed("e".to_string()),
        "sending downstream websocket frame failed: e",
        "gpt-5.6-sol",
        "ws-account",
        502,
    );
}

#[test]
fn either_side_may_end_the_relay() {
    let normal = || {
        Some(Action::SendUpstream(UpstreamMessage::Close {
            code: CloseCode::Normal,
            reason: String::new(),
        }))
    };
    let relayed = || Some(record("gpt-5.6-sol", "ws-account", 101, None));
    play(relaying(), vec![(Event::DownstreamEnded, normal()), (Event::Sent, relayed())]);
    play(
        relaying(),
        vec![
            (Event::DownstreamEnded, normal()),
            (Event::SendFailed("gone".to_string()), relayed()),
        ],
    );
    play(
        relaying(),
        vec![
            (Event::DownstreamMessage(DownstreamMessage::Close(None)), normal()),
            (Event::Sent, relayed()),
        ],
    );
    play(
        relaying(),
        vec![
            (
                Event::UpstreamMessage(UpstreamMessage::Close {
                    code: CloseCode::Bad(999),
                    reason: "odd".to_string(),
                }),
                Some(Action::SendDownstream(close(999, "odd"))),
            ),
            (Event::Sent, relayed()),
        ],
    );
}

#[test]
fn events_out_of_turn_change_nothing() {
    let session = play(
        waiting(),
        vec![
            (Event::Sent, None),
            (Event::SendFailed("e".to_string()), None),
            (Event::Connected("a".to_string()), None),
            (Event::UpstreamMessage(up("x")), None),
            (Event::UpstreamEnded, None),
        ],
    );
    assert_eq!(session, waiting());
    let session = play(
        connecting(),
        vec![(Event::DownstreamMessage(text("x")), None), (Event::Sent, None)],
    );
    assert_eq!(session, connecting());
    let session = play(
        relaying(),
        vec![(Event::Sent, None), (Event::Connected("a".to_string()), None)],
    );
    assert_eq!(session, relaying());
}

#[test]
fn a_request_without_a_model_is_recorded_with_a_dash() {
    play(
        waiting(),
        vec![
            (
                Event::DownstreamMessage(text("hello")),
                Some(Action::Connect(b"hello".to_vec())),
            ),
            (
                Event::ConnectFailed { status: 503, message: "down".to_string() },
                Some(Action::SendDownstream(DownstreamMessage::Text(proxy_error_payload(
                    503, "down",
                )))),
            ),
            (Event::Sent, Some(Action::SendDownstream(failed_close()))),
            (Event::Sent, Some(record("-", "-", 503, None))),
        ],
    );
}

#[test]
fn missing_texts_are_dashes_and_newer_usage_wins() {
    assert_eq!(text_or_dash(None), "-");
    assert_eq!(text_or_dash(Some("m".to_string())), "m");
    assert_eq!(newer_usage(None, None), None);
    assert_eq!(newer_usage(Some((1, 2)), None), Some((1, 2)));
    assert_eq!(newer_usage(Some((1, 2)), Some((0, 0))), Some((0, 0)));
    assert_eq!(newer_usage(None, Some((3, 4))), Some((3, 4)));
}

#[test]
fn what_is_read_changes_nothing_but_the_record() {
    let completed = r#"{"type":"response.completed","response":{"usage":{"input_tokens":1,"output_tokens":1}}}"#;
    for (first, model) in [("{\"model\":\"m\"}", "m"), ("{\"modal\":\"m\"}", "-")] {
        let session = play(
            waiting(),
            vec![
                (
                    Event::DownstreamMessage(text(first)),
                    Some(Action::Connect(first.as_bytes().to_vec())),
                ),
                (Event::Connected("a".to_string()), Some(Action::SendUpstream(up(first)))),
                (Event::Sent, Some(Action::ReceiveEither)),
            ],
        );
        play(
            session,
            vec![
                (
                    Event::UpstreamMessage(up(completed)),
                    Some(Action::SendDownstream(text(completed))),
                ),
                (Event::Sent, Some(Action::ReceiveEither)),
                (Event::UpstreamEnded, Some(Action::SendDownstream(close(1000, "")))),
                (Event::Sent, Some(record(model, "a", 101, Some((1, 1))))),
            ],
        );
    }
}

#[test]
fn a_client_that_only_pinged_is_sent_only_pongs() {
    play(
        waiting(),
        vec![
            (
                Event::DownstreamMessage(DownstreamMessage::Ping(vec![1])),
                Some(Action::SendDownstream(DownstreamMessage::Pong(vec![1]))),
            ),
            (Event::Sent, Some(Action::ReceiveDownstream)),
            (
                Event::DownstreamMessage(DownstreamMessage::Ping(vec![2])),
                Some(Action::SendDownstream(DownstreamMessage::Pong(vec![2]))),
            ),
            (Event::Sent, Some(Action::ReceiveDownstream)),
            (Event::DownstreamEnded, Some(Action::Finish(None))),
        ],
    );
}

#[test]
fn any_data_message_within_the_limit_is_a_first_request() {
    let requests: [(DownstreamMessage, &[u8]); 4] = [
        (text(""), b""),
        (text("not json"), b"not json"),
        (text("{\"type\":\"session.update\"}"), b"{\"type\":\"session.update\"}"),
        (DownstreamMessage::Binary(vec![0xff, 0]), &[0xff, 0]),
    ];
    for (message, payload) in requests {
        play(
            waiting(),
            vec![
                (
                    Event::DownstreamMessage(DownstreamMessage::Pong(vec![])),
                    Some(Action::ReceiveDownstream),
                ),
                (Event::DownstreamMessage(message), Some(Action::Connect(payload.to_vec()))),
            ],
        );
    }
}
