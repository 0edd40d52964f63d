# chill

The on-chain logic of the Chill game economy on Solana, verified with Verus:
the fee-splitting NFT program, the staking program with its sliding reward
window, the proxy wallets, the configuration program and the instruction
formats that clients send them.

Layout:

- `src/` — the verified library.
  - `staking/` — a byte-backed vector (`lazy_vector`), the reward arithmetic
    (`utils`), the staking accounts (`state`) and the instruction handlers
    (`program`).
  - `nft/` — fees, kinds of NFT, recipients' token-account checks, the split
    of a mint fee, and the handlers' decisions.
  - `chill_program/`, `program/`, `api/` — the native programs' checks,
    layouts and instruction encodings.
  - `wallet/` — proxy wallets: authority checks and withdrawals.
  - `cli/`, `chill_cli/`, `grpc_service/` — what the command-line tools and
    the service decide from their arguments.
  - `token.rs`, `pda.rs`, `pubkey.rs`, `bytes.rs` — SPL token layouts, program
    addresses and byte encodings.
- `tests/` — tests of the library, run against the real `spl-token` and
  `solana-program`.
- `app/` — the runtime side: account conversion, cross-program calls, the
  Token Metadata calls, the command-line parser and floating-point amounts.
