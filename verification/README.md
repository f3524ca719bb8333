# token3

A Solana program for merchant reward tokens backed by USDC, split in two:

- `src/` — the verified library (Verus). For each instruction it checks the
  program-derived addresses, computes the fee, reward and pro-rata amounts,
  and returns the exact sequence of token-program operations to perform.
  - `address.rs` — 32-byte addresses.
  - `pda.rs` — seeds of the program-derived accounts and the call that
    derives an address from them.
  - `state.rs` — the token data account and the program's error.
  - `amounts.rs` — the arithmetic of every instruction, with exact
    conditions for when it stays within `u64`.
  - `ops.rs` — token operations and the ledger sums used to state laws.
  - `instructions.rs` — one planning function per instruction.
  - `laws.rs` — proved properties across the instructions.
- `app/` — the Anchor program: account validation, reading the accounts,
  and carrying out the planned operations by cross-program invocation.
