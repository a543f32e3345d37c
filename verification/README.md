# ceremony

The logic of a trusted-setup ceremony, verified with Verus: the contributors
table and its queue, the server's answers to signed requests, the client's
decisions, the wire framing of curve-point vectors, key-pair encodings, upload
planning and file naming.

- `src/` is the verified library. `db.rs` holds the contributors table, its
  invariant and the ceremony's global status, `queue_laws.rs` the laws of the
  queue, `handlers.rs` the server's request handling and the timeout tick,
  `client.rs` the client's decisions,
  `framing.rs` the byte layout of serialized point vectors with its round-trip
  laws, `report.rs` the administrator's report order. Outside crates (ed25519,
  BLAKE3, hex, BCS, chrono) are reached through small trusted wrappers whose
  contracts state what those crates' sources and documentation show.
- `tests/` exercises the library on concrete values.
- `app/` is the program around it: the HTTP server with its SQLite storage and
  cloud file store, the command-line client, and the pairing-based contribution
  code, which lives outside the verified part.
