# x402_swarm

The decision core of the X402 agent swarm, written in Verus and proved
against its contracts, with the node runtimes around it.

- `src/` — the verified library:
  - `consensus` — the policy governor (majority, minimum votes, trend veto),
    the votes the consensus loop derives, the legacy threshold;
  - `bucket_guard`, `cooldown`, `kill_switch`, `auto_ramp`, `risk_gate` — the
    pre-trade guardrails and the capital ramp as state machines;
  - `ipc` — the frame layout of the shared-memory bridge;
  - `memory` — record keys of the experience store;
  - `ipfs`, `oracle` — the pinned record and the market record;
  - `text` — decimal rendering.
- `app/` — the nodes: memory-mapped file and locks, sled, the file watcher,
  alloy RPC, serde/bincode encodings, the extism plugin, and everything that
  computes with floating point (confidence scores, Kelly sizing, ATR stops,
  profit and loss, sentiment).
- `tests/` — scenarios run against the library.

Money amounts, confidences and sentiment are floats and stay in `app/`; the
library receives the facts the rules need (which votes passed the band,
whether a trade lost, whether the daily floor was breached, whether the
7-day result is positive).
