# ripple_core

The core of a Bitmessage-style peer-to-peer messenger, with its logic verified
by Verus.

- `src/pow.rs` — the proof-of-work search: nonce encoding, trial values, the
  per-worker search and the facts that make workers split the nonce space.
- `src/crypto.rs` — hashing, Base58, ECIES encryption and random identifiers,
  taken from their crates behind small trusted wrappers.
- `src/models.rs` — messages, addresses and message plaintexts as plain values.
- `src/client.rs` — the record a new outgoing message starts as.
- `src/worker.rs` — the node worker's decisions on network events and commands,
  and the state it keeps between them.
- `src/gui/` — the decisions of the desktop client's views.
- `app/` — the runtime around the library: the command channel of the node
  client, the proof-of-work threads and CBOR serialization of payloads.
- `tests/` — tests of the library on concrete values.
