# gamma_pallets

The runtime logic of the Gamma Finance chain — recurring payments, decentralised
identities, permissioned membership, merchant products and prices, ratings,
fixed-point and compound-interest accounts — together with the SHA3
proof-of-work seal checks and the node's RPC helpers, written in Verus.

Each pallet keeps its storage as plain values in a state struct whose view is a
mathematical model (maps, sequences, integers). Every dispatchable call is a
method whose contract gives the resulting storage, events and dispatch result as
a spec function of the state before the call. Laws that relate several calls are
public proof functions (`recurring/laws.rs`, `identity/laws.rs`, and the `law_`
functions of the other modules).

Layout:

- `src/` — the verified library, one module per pallet, plus shared pieces:
  origins (`origin.rs`), byte-keyed storage maps (`bytemap.rs`), sorted account
  lists (`sorted.rs`), SCALE encoding (`scale.rs`) and the hash functions
  (`hashing.rs`).
- `tests/` — tests of the library on concrete values, some checked against the
  codec and hashing crates directly.
- `app/` — the node-side glue: serde forms of the shared types, the JSON-RPC
  endpoints, the mining loop, and the calls that need the runtime's signature
  scheme.
