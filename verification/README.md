# responses_relay

The decisions of a transparent WebSocket relay for the Responses API, written
and proved in Verus.

A client connects over WebSocket, its first data message is taken to upstream,
and from then on every message is forwarded as it came, in both directions,
until one side closes or fails. What the relay reads for itself is the model of
the first request and the token usage of `response.completed` events, both for
the access log.

- `src/session.rs` is the session: it takes what happened on the connections and
  gives the next action. `src/model.rs` says what that action is.
- `src/message.rs` and `src/close_code.rs` hold the messages of both sides and
  their conversion.
- `src/inspect.rs` reads models and usage, on top of `src/json.rs`.
- `src/report.rs` and `src/text.rs` word the failures that clients are told of.
- `src/laws.rs` states what holds of whole sessions.
- `app/` runs sessions on axum and `reqwest_websocket` connections.

The calls into `serde_json` and `reqwest_websocket` stand in `src/json.rs` and
`src/close_code.rs`, each with the contract that is assumed of it.
