# rails_client

Client-side logic of the DataTracks (TrackRails) protocol, verified with Verus.

- `src/` is the verified library: permission parsing, the value model of trains,
  the protocol model of messages (`wire`), the requests a client sends, the
  decoding of the engine's answers (`messages`), the reading of received frames
  into the protocol model and the writing of every message but trains as
  FlatBuffers bytes, through `flatbuffers` and `track-rails` (`codec`),
  the state of a connection and the length framing of messages on a stream.
- `app/` is the unverified shell around it: writing trains as FlatBuffers
  bytes through the builders of `track-rails`, TCP connections, and the
  administration session built on them.
- `tests/` runs the library on concrete messages.
