# pachi

Verified core of the Pachi chain, written in Verus: the price oracle (exchange
message parsing, aggregation, the on-chain price store and its circuit
breaker), session keys (registry, nonces, policy and limit validation), the
ABI dispatch of the Pachi precompiles, block-level checks of system
transactions, pool-level admission checks, and the system transactions that
end a block.

Layout:

- `src/` — the library. Verus proves every function's contract except those
  of a few small trusted wrappers, which it takes as given: the calls into
  `alloy-primitives` (Keccak-256, 256-bit multiplication and division, byte
  conversions, address display), into `serde_json` (parsing a JSON text) and
  into `std::time::Duration`. Each says in its doc comment what it claims.
  `word` and `hash` give 256-bit words, hashes and addresses; `state` the
  storage interface the precompiles run against; the other modules follow the
  chain's components.
- `tests/` — ordinary Rust tests of the library.
- `app/` — the runtime around it: WebSocket connections to the exchanges, the
  shared oracle engine with its tasks, and the JSON forms of the genesis
  configuration and of price snapshots.

Verification: `verus` on `src/lib.rs` as a library crate.
