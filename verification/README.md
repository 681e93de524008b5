# lending_pool

Verified core of a lending pool's configuration and position-health logic.

- `src/config.rs`: pool initialization, reserve creation and reserve updates as
  decisions over the pool's stored state (`src/storage.rs`), with exact contracts.
  Host work (contract deployment, token initialization, storage) happens between
  the steps and is done in `app/`; interest accrual and the emissions bookkeeping
  are handed to `app/` by its caller.
- `src/positions.rs`, `src/balances.rs`: a user's positions, held in host maps that
  are reached through a few trusted calls.
- `src/rules.rs`: when a change of positions calls for a health check, and the laws
  that relate the action summaries of `src/summaries.rs` to it.
- `src/model.rs`: the health-check flag and the watched reserve index.
- `app/`: conversions between host values and the library's values
  (`convert.rs`), the pool's and users' storage (`store.rs`), and the host calls
  around the configuration steps and the action summaries (`lib.rs`).
