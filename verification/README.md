# rix

A small client for the Matrix client-server API.

- `src/` is the library, verified with Verus. For each call (whoami,
  media upload, sending messages, sync) it builds the HTTP request as a
  plain value (`http::HttpRequest`) and reads the homeserver's answer
  (status and body) into a result or a `RixError`. It also fills in the
  room of each event of a sync, lists the events of a sync in order, and
  decides each step of the endless sync stream.
  - `client/` — the calls: `account`, `media`, `message`, `sync`, and a
    `Client` holding the homeserver and the access token.
  - `http.rs` — the request model and its conversion into hyper requests.
  - `json.rs`, `text.rs` — JSON through serde_json, UTF-8 decoding,
    percent-encoding and random transaction ids.
  - `error.rs` — `RixError`.
- `app/` sends the requests over HTTPS with hyper and futures, parses the
  JSON bodies that map onto the library's types with serde, and offers the
  future-based API (`Client`, `whoami`, `upload`, `send_message`, `sync`,
  `SyncStream`, ...).
- `tests/` exercises the library on concrete values.
