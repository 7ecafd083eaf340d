# escrow_program

Verified rules of an electric-vehicle reservation system on Solana: purchase orders paid
in milestones against vouchers and settled against a vehicle token, escrows that release
a deposit to the seller milestone by milestone, the vehicle token's metadata, and the
oracle that reports finished production milestones.

## Layout

- `src/` — the library, verified with Verus. Each instruction is a function from the
  stored state and the instruction's inputs (signer keys, amounts, the current time) to
  the new state, the token-program calls to make and the event to log; its contract says
  exactly which inputs it refuses, with which error, and what it does otherwise.
  - `key.rs` — 32-byte addresses.
  - `state/order.rs`, `state/escrow.rs` — accounts, stage codes, invariants and their lemmas.
  - `instructions/` — one file per escrow-program instruction.
  - `vehicle_nft/` — the vehicle-token metadata and its instructions.
  - `oracle.rs` — milestone reports and the vehicle stage they lead to.
  - `token.rs`, `events.rs`, `error.rs` — token calls, events, error codes.
- `app/` — the Anchor programs: account validation, clock reads, the token-program calls
  and event logging around the library.
- `tests/` — tests of the library on concrete values.
