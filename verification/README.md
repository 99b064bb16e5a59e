# cube_terminal

Verified protocol logic of a browser terminal bridged to the envd process
service of a sandbox.

- `src/frame.rs`: the Connect streaming envelope (`[flags][u32 BE length][payload]`),
  building it and draining whole frames from a byte buffer, with the laws of
  round trip, partial frames and chunk-boundary independence.
- `src/event.rs`: decoding one envd event from a frame's flags and JSON payload.
- `src/json.rs`, `src/codec.rs`: the calls into `serde_json` and `base64`.
- `src/text.rs`: trimming, prefixes and decimal integers on characters.
- `src/rpc.rs`: the envd requests: addresses, JSON bodies, the `Start` frame, error texts.
- `src/endpoint.rs`: authentication and sandbox checks before the WebSocket upgrade.
- `src/session.rs`: the start phase and the decisions of the session loop, with its timers.
- `src/error.rs`: the endpoint's error type.
- `src/models.rs`: the messages exchanged with the browser and envd events.
- `app/`: the axum handler, the HTTP calls to envd and the session loop's I/O.
