# obs-mock

A mock of the obs-websocket 5.x server, for testing OBS clients without OBS
Studio. The protocol logic is a Verus-verified library; a thin Tokio program
serves it over WebSocket.

## Layout

- `src/` — the verified library
  - `json.rs`: the library's JSON values and their model
  - `protocol.rs`: op codes, messages, and the payloads of the handshake and
    of requests, to and from JSON
  - `auth.rs`: the SHA-256 challenge/response authentication
  - `state.rs`: the state of the mock instance and its lookups
  - `handler.rs`, `handler/`: the answer to every request type and the change
    it makes to the state
  - `session.rs`: one connection as a state machine (handshake, requests,
    batches with `haltOnFailure`, `Reidentify`)
  - `wire.rs`: the choice of JSON or MessagePack from the offered subprotocols
  - `laws.rs`: properties of the library as a whole, proved
- `app/main.rs` — the server: WebSocket I/O, JSON and MessagePack framing,
  environment configuration
- `tests/` — tests of the library

## Running

The server listens on `OBS_MOCK_PORT` (default 4455) and requires the
password `OBS_MOCK_PASSWORD` when it is set.
