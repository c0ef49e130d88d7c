use reqwest_websocket::CloseCode;
use responses_relay::message::{
    closing, data_payload, downstream_to_upstream, normal_closure, upstream_to_downstream,
    CloseFrame, DownstreamMessage, UpstreamMessage,
};

fn close(code: u16, reason: &str) -> DownstreamMessage {
    DownstreamMessage::Close(Some(CloseFrame { code, reason: reason.to_string() }))
}

#[test]
fn only_data_messages_have_a_payload() {
    assert_eq!(
        data_payload(&DownstreamMessage::Text("h\u{e9}".to_string())),
        Some(&[0x68u8, 0xc3, 0xa9][..])
    );
    assert_eq!(
        data_payload(&DownstreamMessage::Binary(vec![0, 255])),
        Some(&[0u8, 255][..])
    );
    assert_eq!(data_payload(&DownstreamMessage::Text(String::new())), Some(&[][..]));
    assert_eq!(data_payload(&DownstreamMessage::Ping(vec![1])), None);
    assert_eq!(data_payload(&DownstreamMessage::Pong(vec![1])), None);
    assert_eq!(data_payload(&DownstreamMessage::Close(None)), None);
    assert_eq!(data_payload(&close(1000, "x")), None);
}

#[test]
fn messages_keep_their_kind_and_contents_upstream() {
    assert_eq!(
        downstream_to_upstream(DownstreamMessage::Text("{ \"a\": 1 }".to_string())),
        UpstreamMessage::Text("{ \"a\": 1 }".to_string())
    );
    assert_eq!(
        downstream_to_upstream(DownstreamMessage::Binary(vec![1, 2])),
        UpstreamMessage::Binary(vec![1, 2])
    );
    assert_eq!(
        downstream_to_upstream(DownstreamMessage::Ping(vec![3])),
        UpstreamMessage::Ping(vec![3])
    );
    assert_eq!(
        downstream_to_upstream(DownstreamMessage::Pong(vec![4])),
        UpstreamMessage::Pong(vec![4])
    );
    assert_eq!(
        downstream_to_upstream(close(1001, "bye")),
        UpstreamMessage::Close { code: CloseCode::Away, reason: "bye".to_string() }
    );
    assert_eq!(
        downstream_to_upstream(close(4321, "")),
        UpstreamMessage::Close { code: CloseCode::Library(4321), reason: String::new() }
    );
}

#[test]
fn a_close_without_a_frame_is_a_normal_closure() {
    let expected = UpstreamMessage::Close { code: CloseCode::Normal, reason: String::new() };
    assert_eq!(downstream_to_upstream(DownstreamMessage::Close(None)), expected);
    assert_eq!(normal_closure(), expected);
    assert_eq!(upstream_to_downstream(expected), close(1000, ""));
    assert_eq!(closing(1000, ""), close(1000, ""));
}

#[test]
fn messages_keep_their_kind_and_contents_downstream() {
    assert_eq!(
        upstream_to_downstream(UpstreamMessage::Text("x".to_string())),
        DownstreamMessage::Text("x".to_string())
    );
    assert_eq!(
        upstream_to_downstream(UpstreamMessage::Binary(vec![9])),
        DownstreamMessage::Binary(vec![9])
    );
    assert_eq!(
        upstream_to_downstream(UpstreamMessage::Ping(vec![8])),
        DownstreamMessage::Ping(vec![8])
    );
    assert_eq!(
        upstream_to_downstream(UpstreamMessage::Pong(vec![7])),
        DownstreamMessage::Pong(vec![7])
    );
    assert_eq!(
        upstream_to_downstream(UpstreamMessage::Close {
            code: CloseCode::Size,
            reason: "too big".to_string()
        }),
        close(1009, "too big")
    );
}

#[test]
fn every_close_code_survives_the_round_trip() {
    for code in 0..=u16::MAX {
        assert_eq!(upstream_to_downstream(downstream_to_upstream(close(code, "r"))), close(code, "r"));
    }
}

#[test]
fn registered_upstream_codes_come_back_unchanged() {
    for code in [CloseCode::Normal, CloseCode::Tls, CloseCode::Iana(3500), CloseCode::Bad(0)] {
        let message = UpstreamMessage::Close { code, reason: "r".to_string() };
        let expected = UpstreamMessage::Close { code, reason: "r".to_string() };
        assert_eq!(downstream_to_upstream(upstream_to_downstream(message)), expected);
    }
}
