# daqiao

A verified model of the DaQiao cross-chain bridge runtime.

- `src/tokens.rs`: the ERC20-style token ledger (`init`, `transfer`, `mint`,
  `burn`), specified by transition functions over its abstract state.
- `src/daqiao.rs`: the bridge (`register`, `pledge`, `withdraw`, `dummy`)
  over the ledger.
- `src/token_laws.rs`, `src/daqiao_laws.rs`: properties proved of those
  transitions: supply conservation (a token's holdings, the sum of its
  balances, match its total supply across transfers, successful mints,
  burns, pledges and withdraws), mint/burn and pledge/withdraw round trips,
  permanent registrations and at-most-once pledges and withdraws over any
  later sequence of calls, and what refused calls leave behind.
- `src/system.rs`: origins, `ensure_signed`, and the dispatch errors.
- `src/light.rs`, `src/shutdown.rs`: the decisions of the light client's
  start-up and of waiting for a shut-down client.
- `app/`: SCALE codec copies of the stored records, and the shutdown wait loop.
