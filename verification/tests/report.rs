use responses_relay::message::{CloseFrame, DownstreamMessage};
use responses_relay::report::{proxy_error_close, proxy_error_payload};
use responses_relay::text::{decimal_text, oversize_error, with_context};

#[test]
fn proxy_error_has_official_wrapped_error_shape() {
    let payload: serde_json::Value =
        serde_json::from_str(&proxy_error_payload(502, "failed")).unwrap();
    assert_eq!(payload["type"], "error");
    assert_eq!(payload["status"], 502);
    assert_eq!(payload["error"]["code"], "websocket_proxy_error");
    assert_eq!(payload["error"]["type"], "upstream_error");
    assert_eq!(payload["error"]["message"], "failed");
    assert_eq!(payload.as_object().unwrap().len(), 3);
    assert_eq!(payload["error"].as_object().unwrap().len(), 3);
}

#[test]
fn proxy_error_is_compact_json() {
    assert_eq!(
        proxy_error_payload(400, "no"),
        r#"{"error":{"code":"websocket_proxy_error","message":"no","type":"upstream_error"},"status":400,"type":"error"}"#
    );
}

#[test]
fn proxy_error_message_is_escaped_and_reads_back() {
    let message = "a \"quoted\" \\ line\nand \u{1f600} \u{0}";
    let payload: serde_json::Value =
        serde_json::from_str(&proxy_error_payload(u16::MAX, message)).unwrap();
    assert_eq!(payload["error"]["message"], message);
    assert_eq!(payload["status"], 65535);
}

#[test]
fn proxy_error_close_says_that_the_relay_failed() {
    assert_eq!(
        proxy_error_close(),
        DownstreamMessage::Close(Some(CloseFrame {
            code: 1011,
            reason: "upstream websocket proxy failed".to_string()
        }))
    );
}

#[test]
fn numbers_are_written_in_decimal() {
    for n in [0, 7, 9, 10, 99, 100, 1_048_576, usize::MAX] {
        assert_eq!(decimal_text(n), format!("{n}"));
    }
}

#[test]
fn oversize_error_names_both_sizes() {
    assert_eq!(
        oversize_error(2048, 1024),
        "websocket request frame is 2048 bytes; limit is 1024"
    );
}

#[test]
fn context_stands_before_the_error() {
    assert_eq!(with_context("reading failed: ", "reset"), "reading failed: reset");
}
