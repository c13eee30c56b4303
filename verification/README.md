# tfserver

A binary TCP server/client framework: length-delimited frames, requests routed
to typed handlers, and optional SPAKE2-keyed AES-256-GCM encryption of every
frame. The decision logic of the framework is written in Verus and proved
against its contracts; the async runtime around it is ordinary Rust.

## Layout

- `src/` — the verified library.
  - `structures/s_type.rs` — wire structures, structure-type codes and route
    keys.
  - `codec/crypto.rs` — the trusted wrappers around HKDF-SHA256, AES-256-GCM,
    SPAKE2 and UTF-8 decoding, each with the contract its crate documents.
  - `codec/session.rs` — session keys, frame sealing and opening with replay
    and reordering protection, and the laws that hold of them.
  - `codec/handshake.rs` — the SPAKE2 handshake of client and server as state
    machines driven by events.
  - `codec/spake2_encrypted.rs` — the encrypting codec state of a connection.
  - `server/server_router.rs` — handler registration, commit and routing.
  - `server/server.rs` — the per-connection server loop as a state machine.
  - `client/` — handler targeting, request headers and response outcomes.
  - `bench/`, `s_type_example.rs` — benchmark and example support: /proc
    parsers, command-line flags, ports and structure types.
- `app/` — the tokio runtime: listeners, transports (TLS, WebSocket), framing,
  rkyv serialization, the credential providers, and the loops that perform the
  actions the state machines decide.
- `tests/` — tests of the library on concrete values.

Run the proofs with Verus on `src/lib.rs`.
