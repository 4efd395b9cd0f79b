# open_ai_rust

A client library for the OpenAI API whose request-building, schema, streaming and retry
logic is verified with Verus.

- `src/` — the verified library: chat messages and payloads, function-tool JSON schemas (from
  hand-written types, rendered Rust types and struct declarations), the server-sent-event
  parser and chat-stream assembly, response readers, client configuration (URLs, headers,
  per-request overrides, retry policy), multipart form fields, and the Responses API types.
  Each public function states its result in its contract; the laws of the library are public
  proof functions (`law_*`).
- `tests/` — tests of the library on concrete values.
- `app/` — the HTTP client around the library (`reqwest`, `tokio`, `serde_json`): it sends
  what the library says to send, decodes replies into the library's types, and asks the
  library whether to retry.
