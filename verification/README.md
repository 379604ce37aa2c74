# ceseal

The request handling of a ceseal node, verified with Verus: how the node is initialised, attested,
synchronised with its chain, and how its identity key is handed over to another node. The weights
of the file bank's calls are here too.

## Layout

- `src/` is the library. A request that needs work on the platform or the chain is a series of
  methods on the node: each takes what came of the work and says what is to be done next.
  - `service` holds the lock policy and one method for each request.
  - `state`, `types` and `error` hold the node, its messages and its errors.
  - `runtime`, `attestation`, `blocks`, `chain_state`, `endpoint`, `challenge`,
    `handover_server` and `handover_client` hold the requests.
  - `handover_laws`, and the functions named `law_..` elsewhere, state what holds of several
    requests together.
  - `scale` and `encoding` hold the bytes of the messages, `crypto` hashes and keys, `weights` the
    weights.
- `app/` is the service around the library: transport, lock, clock, and traits for the platform
  and the chain.
- `tests/` runs the library.

## What is not proved

The contracts of a few calls are taken from the libraries they go to: SCALE encoding and decoding
of plain values (`parity-scale-codec`), BLAKE2 and sr25519 (`sp-core`), hexadecimal text (`hex`) and
the cost of database accesses (`frame-support`). Each is marked `external_body` and says in its
documentation what is claimed.
