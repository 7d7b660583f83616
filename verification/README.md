# rtmp_stream_lib

The core of a client that streams camera video to an RTMP server, verified
with Verus.

- `src/rtmp_clients.rs` — the client configuration and its model.
- `src/rtmp_client.rs` — reading the session's packets back through the chunk
  deserializer, the steps of connecting, and serving socket events.
- `src/messages.rs`, `src/connection.rs` — the plain values these exchange.
- `src/encoder.rs` — the frames passed from the camera to the encoder.
- `src/rtmp_io.rs` — the calls into the RTMP crate, with their trusted contracts.
- `src/laws.rs` — properties across several operations.
- `app/` — the program: name resolution, sockets, the poll loop, the camera and
  the H.264 encoder threads.
