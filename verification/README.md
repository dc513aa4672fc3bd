# mm2

Parts of a MarketMaker node, written in Verus: its human-readable log, its
requests to sign and verify messages, and the bookkeeping of its Lightning
side.

## Layout

- `src/` is the library. Verus proves every function against its contract.
  - `log` keeps the status dashboard and the recent log entries; `log::laws`
    states what holds of the log as a whole.
  - `signature` takes requests to sign a message and to verify a signature.
  - `storage` has the records of channels, payments and peers.
  - `platform` has the coin: its keys, its scripts and its unsigned
    transactions.
  - `ln_events` decides what follows each Lightning event; `ln_events::laws`
    states what holds of the payments.
  - `ln_utils` has the directories and the start of the node, step by step;
    `ln_utils::laws` states what holds of a whole start.
  - `json`, `keyed_map` and `text` are what the others are built on.
- `app/` is the ordinary Rust around it: files, locks, the database, the chain
  and the network. Where a flow waits for the outside, the library says what is
  to be done next, and `app/` does it and hands back what came of it.
- `tests/` runs the library.

## What is not proved

The functions marked `external_body` call outside crates. What is taken for
granted of each call stands in its contract and in the comment above it.
