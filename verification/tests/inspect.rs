use responses_relay::inspect::{completed_usage, model_of_request, request_model, usage_of_event};

#[test]
fn completed_usage_only_reads_response_completed_events() {
    assert_eq!(
        completed_usage(
            r#"{"type":"response.completed","response":{"usage":{"input_tokens":7,"output_tokens":4}}}"#
        ),
        Some((7, 4))
    );
    assert_eq!(
        completed_usage(r#"{"type":"response.output_text.delta","delta":"x"}"#),
        None
    );
}

#[test]
fn completed_usage_ignores_members_it_does_not_know() {
    assert_eq!(
        completed_usage(
            r#"{"sequence_number":9,"type":"response.completed","response":{"id":"resp-1","usage":{"input_tokens":3,"output_tokens":2,"total_tokens":5}}}"#
        ),
        Some((3, 2))
    );
}

#[test]
fn completed_usage_needs_the_type_to_match_exactly() {
    let usage = r#""response":{"usage":{"input_tokens":7,"output_tokens":4}}"#;
    for kind in [
        r#""type":"response.complete""#,
        r#""type":"response.completed ""#,
        r#""type":"Response.completed""#,
        r#""type":1"#,
        r#""kind":"response.completed""#,
    ] {
        assert_eq!(completed_usage(&format!("{{{kind},{usage}}}")), None);
    }
}

#[test]
fn completed_usage_needs_both_counts_as_integers() {
    for usage in [
        r#"{"input_tokens":7}"#,
        r#"{"output_tokens":4}"#,
        r#"{"input_tokens":7,"output_tokens":4.0}"#,
        r#"{"input_tokens":"7","output_tokens":4}"#,
        r#"{"input_tokens":9223372036854775808,"output_tokens":4}"#,
        r#"[7,4]"#,
        r#"null"#,
    ] {
        let event = format!(r#"{{"type":"response.completed","response":{{"usage":{usage}}}}}"#);
        assert_eq!(completed_usage(&event), None);
    }
    assert_eq!(completed_usage(r#"{"type":"response.completed"}"#), None);
    assert_eq!(completed_usage(r#"{"type":"response.completed","response":{}}"#), None);
}

#[test]
fn completed_usage_takes_the_whole_range_of_counts() {
    assert_eq!(
        completed_usage(
            r#"{"type":"response.completed","response":{"usage":{"input_tokens":9223372036854775807,"output_tokens":-9223372036854775808}}}"#
        ),
        Some((i64::MAX, i64::MIN))
    );
}

#[test]
fn completed_usage_of_other_text_is_none() {
    for text in ["", "not json", "[]", "\"response.completed\"", "{} {}", "{"] {
        assert_eq!(completed_usage(text), None);
    }
}

#[test]
fn request_model_reads_the_model() {
    let first = r#"{"type":"response.create","model":"gpt-5.6-sol","service_tier":"priority","input":[{"role":"user","content":"hello"}],"future_field":{"kept":true}}"#;
    assert_eq!(request_model(first.as_bytes()), Some("gpt-5.6-sol".to_string()));
    assert_eq!(
        request_model(r#"{"model":"é\n"}"#.as_bytes()),
        Some("\u{e9}\n".to_string())
    );
}

#[test]
fn request_model_of_other_payloads_is_none() {
    let payloads: [&[u8]; 7] = [
        b"",
        b"hello",
        b"[\"model\"]",
        b"{\"model\":5}",
        b"{\"model\":null}",
        b"{\"input\":[]}",
        b"{\"model\":\"\xff\"}",
    ];
    for payload in payloads {
        assert_eq!(request_model(payload), None);
    }
}

#[test]
fn parsed_values_are_read_like_their_text() {
    let mut usage = serde_json::Map::new();
    usage.insert("input_tokens".to_string(), serde_json::Value::from(11));
    usage.insert("output_tokens".to_string(), serde_json::Value::from(5));
    let mut response = serde_json::Map::new();
    response.insert("usage".to_string(), serde_json::Value::Object(usage));
    let mut event = serde_json::Map::new();
    event.insert("type".to_string(), serde_json::Value::from("response.completed"));
    event.insert("response".to_string(), serde_json::Value::Object(response));
    event.insert("model".to_string(), serde_json::Value::from("m"));
    let event = serde_json::Value::Object(event);
    assert_eq!(usage_of_event(&event), Some((11, 5)));
    assert_eq!(completed_usage(&event.to_string()), Some((11, 5)));
    assert_eq!(model_of_request(&event), Some("m".to_string()));
    assert_eq!(usage_of_event(&serde_json::Value::Null), None);
    assert_eq!(model_of_request(&serde_json::Value::Null), None);
}

#[test]
fn keys_that_the_parser_could_keep_for_itself_are_ordinary() {
    assert_eq!(
        request_model(br#"{"$serde_json::private::RawValue":"{\"model\":\"m\"}"}"#),
        None
    );
    assert_eq!(
        request_model(br#"{"$serde_json::private::RawValue":7,"model":"m"}"#),
        Some("m".to_string())
    );
    assert_eq!(
        completed_usage(
            r#"{"type":"response.completed","response":{"usage":{"input_tokens":{"$serde_json::private::Number":"7"},"output_tokens":4}}}"#
        ),
        None
    );
}

#[test]
fn payloads_are_read_down_to_the_nesting_limit() {
    let nested = |arrays: usize| {
        format!(r#"{{"model":"m","input":{}{}}}"#, "[".repeat(arrays), "]".repeat(arrays))
    };
    assert_eq!(request_model(nested(126).as_bytes()), Some("m".to_string()));
    assert_eq!(request_model(nested(127).as_bytes()), None);
    assert_eq!(request_model(nested(1_000_000).as_bytes()), None);
    assert_eq!(completed_usage(&nested(1_000_000)), None);
}
