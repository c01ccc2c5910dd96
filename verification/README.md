# autara_lib

The core of the Autara lending protocol on Arch, with its behaviour stated in
`requires`/`ensures` contracts and proved by Verus, and the liquidator bot
built on it.

## Layout

- `src/` — the verified library
  - `math/` — fixed-point numbers (`UFixedPoint`, `IFixedPoint`), rounding,
    checked arithmetic, basis points and the share tracker of the vaults
  - `interest_rate/` — rates per second, compounding, the fixed, polyline
    and adaptive curves, and a curve's layout in a market account
  - `oracle/` — prices and their bounds, oracle configs, and reading Pyth
    and Chaos Labs price accounts
  - `state/` — positions, vaults, market config, global config, the market
    and its wrapper with oracle prices
  - `operation/` — the liquidation arithmetic
  - `ixs/` — instructions: their byte layout, the builders of each
    instruction with its accounts, and reading instruction data back
  - `event.rs` — the events the program logs, their layout and decoding
  - `pda.rs`, `token.rs`, `pubkey.rs` — program-derived addresses, token
    programs and associated token accounts
  - `liquidator/` — the decisions of the liquidator bot: configuration,
    which positions to liquidate, venue choice, quotes and the circuit
    breaker
  - `laws.rs` — properties that relate several operations
- `tests/` — tests run against the compiled library
- `app/` — the liquidator bot's I/O (and its `check-atas` ops command): command line, configuration file, RPC,
  pool discovery, transaction signing and broadcasting, and the summaries
  that use floating point

Outside crates are reached through a few trusted items, each with a doc
comment saying what its contract claims: `fixed` (checked multiplication
and division), `hex` (decoding), `arch_program` (program-derived
addresses, the system program id), `apl_token` and
`apl_associated_token_account` (program ids, the account-creation
instruction).
