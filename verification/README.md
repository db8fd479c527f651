# note_sync

Verified decoding of the notes that a Miden node reports to a client.

- `src/` is the library, verified with Verus. `src/protocol.rs` holds everything that is trusted:
  the calls into `miden-protocol`, with the contracts that the proofs rest on. `src/laws.rs` states
  what holds of the library as a whole.
- `tests/` runs the library against `miden-protocol` itself.
- `app/` turns the node's protobuf messages into the library's. It needs `miden-objects`, which
  decodes the parts of a message.
