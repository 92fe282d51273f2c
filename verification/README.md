# rbt_contracts

Verified core of two Rubix smart contracts, written in Verus.

* `src/` — the library, verified by Verus:
  * `yield_math` — time-based staking yield (`principal * rate * blocks / (100 * blocks_per_year)`);
  * `stakers` — the pool's staker table (a map from DID to position, each DID once);
  * `pool` — the RBT staking pool: initialization, stake, withdraw, claim, reports;
  * `agent` — the agent registry: registration, activity batches (a window of at most 500
    roots), single activities, status;
  * `decimal`, `text` — decimal notation of integers and the string tests the contracts use.
* `app/` — the WASM entry points: JSON encoding, host storage and token calls, and the
  floating-point reputation score.
* `tests/` — tests of the library on concrete values.

Every operation that calls the host is split in two: the library decides what to request
(a mint, a transfer, a reputation window) and, once the host has done it, how the state
changes.
