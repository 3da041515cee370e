# zenoh_nostd

Sessions of the Zenoh protocol for constrained targets, verified with Verus.

The library takes every decision of a session: the handshake of a transport, the names that keys have
on the wire, what a received message means, how declarations are made, withdrawn and announced again
on a replacement transport, when a transport is kept alive and when it ends, and how a broker forwards.
It performs no I/O. Where the work outside matters to a decision, the library is a state machine that
is told what came of the last action and names the next one.

## Layout

- `src/keyexpr.rs`, `src/fields.rs`, `src/exts.rs`, `src/msgs/`: names, fields and messages
- `src/establishment.rs`: the handshake
- `src/session.rs`, `src/session/`: sessions. `run.rs` says what each message does, `declaring.rs` and
  `reconnect.rs` hold the state machines, `namespace.rs` and `keyexprs.rs` the two tables and the
  boundary of keys, `exchange.rs` and `soundness.rs` the laws that relate several operations
- `src/io/`: the receive loop of a transport, and opening transports
- `src/broker.rs`, `src/wasm.rs`: forwarding, and the sockets of a browser
- `src/sample.rs`, `src/response.rs`, `src/query.rs`: what the application is handed
- `src/storage.rs`, `src/digest.rs`, `src/time.rs`, `src/wasm.rs`: what is believed of other crates
- `tests/`: the library at work
- `app/`: the asynchronous runtime around the library
