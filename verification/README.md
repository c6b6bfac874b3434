# tezoro

A verified model of the Tezoro yield aggregator on Soroban: an ERC-4626-style
vault that pools deposits into shares, routes funds to strategies (a Blend v2
lending-pool adapter and a test double) and pays redemptions through a
withdrawal waterfall.

- `src/` is the library, proved with Verus. Each contract is a value holding
  what the contract keeps in ledger storage, with one method per entry point.
  What the host supplies (ledger time, token balances, answers of other
  contracts) comes in as arguments; what the host must do afterwards (token
  transfers, pool requests, cross-contract calls, events) comes out in the
  result or in the contract's event log. Multi-step entry points are split
  into a check and a completion (allocation, deallocation, emergency
  withdrawal) or run as a small state machine (the redemption waterfall).
  Laws that relate several operations are in `src/vault_laws.rs`.
- `app/` holds the Soroban contracts: each entry point loads storage into the
  library's types, calls the library, performs the host calls and writes
  storage back.
- `tests/` drives the library through a small in-memory host.
