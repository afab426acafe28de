# ocpp_client

The charge-point side of OCPP-J (1.6J, 2.0.1 and 2.1) as a verified core with an asynchronous
shell around it.

`src/` is the library, written in Verus: every function carries a contract and is proved
against it. It holds what the client decides and remembers:

- `envelope`: the four OCPP-J frames (CALL, CALLRESULT, CALLERROR, SEND), decoding a received
  array and laying out an outgoing one; `json` reads and writes their JSON text through
  `serde_json`.
- `engine`: the bookkeeping of one connection - requests waiting for an answer, handlers per
  action, pings waiting for a pong, the keepalive interval, shutdown - and what each received
  frame calls for.
- `keepalive`, `reconnect`: the ping schedule and dead-peer detection, the reconnect backoff
  with jitter, and the read loop's decisions on wake-up and after a transport ends.
- `ocpp_1_6`, `ocpp_2_0_1`, `ocpp_2_1`, `validation`: each version's CALLERROR codes and error
  type, and the answer to a payload that breaks its schema.
- `connect`: which subprotocols to offer, which one the server picked, the settings a
  connection runs with, and the HTTP Basic `Authorization` header.
- `transport`, `frame_assembly`, `ids`, `time`, `client`: ping correlation tokens, reassembling
  text messages from a sans-io WebSocket decoder, message ids, time spans, client options.

Calls into outside crates (`serde_json`, `uuid`, `base64`, `ocpp-types`) go through small
trusted wrappers whose contracts say what the library relies on.

`app/` is ordinary Rust: the `Client` with its background read loop and keepalive task, the
tokio and embassy runtimes, the WebSocket transports (tokio-tungstenite, embassy-net), the
typed `send_*`/`on_*` methods for every action `ocpp-types` defines, and `connect*`. It performs
the I/O the library's decisions call for.

`tests/` exercises the library on concrete values.
