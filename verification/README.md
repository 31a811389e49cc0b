# soljeets_smc

A token-launch program for Solana: a program-wide configuration, token
creation and minting into a vault, fixed-price buys and sells against the
vault until the vault's SOL reaches a target, a one-time creator allocation,
and the withdrawal of a completed vault.

- `src/` is the verified library (Verus). Each instruction is a function from
  the values it reads of its accounts to its result, the account data it
  writes, and the list of lamport and token movements (`effects::Effect`) for
  the runtime to perform. `instructions/` holds the handlers with their
  contracts, `program.rs` the instruction entry points that also build the
  events, `utils/` the fee split, the constant-product curve and the signer
  seeds, and `laws.rs` / `trading_laws.rs` the proved properties: fee and
  curve arithmetic; how each instruction moves lamports and tokens (a
  withdrawal falls one lamport short where the traded SOL is not a multiple
  of ten); completion; the creator's single allocation; configuration
  updates.
- Each instruction also checks, before its own rules, the accounts that must
  match the configuration, the operator's signature on a buy, and that the
  buyer has not bought the token before (its marker account does not exist).
- `app/` is the Anchor program around it: account validation, reading the
  accounts into the library's values, carrying out the effects through the
  system and token programs, writing account data back, and logging events.
- `tests/` runs the library on concrete values.
