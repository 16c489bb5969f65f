# minter

The minting logic of an ICRC-1 reserve minter, written in Verus.

The minter keeps a set of reserve accounts topped up: a rebalance mints the
larger of the balance shortfall and the lifetime-guarantee shortfall, capped
by per-reserve limits, the global policy and sliding-window rate limits
(an exhausted rate budget skips it); a manual top-up is refused when it
breaks the per-operation cap, the lifetime maximum, the balance cap (checked
against the reserve's ledger balance) or a rate limit, and is idempotent per
key; a per-reserve lock keeps two mints to one reserve from interleaving.
Neither kind of mint pushes a balance above `max_balance`.
Amounts, balances, lifetime totals and block indices are 64-bit in the
library; the canister refuses larger Candid values as arguments, and reports
larger ledger replies as ledger errors.

## Layout

- `src/` — the verified library.
  - `model.rs`, `params.rs`: data types.
  - `reserve.rs`: configuration validation, rate-limit accounting, the
    rebalance computation.
  - `state.rs`: the state (reserves by id, locks, idempotency keys)
    and its well-formedness.
  - `admin.rs`: registering, updating and removing reserves, the policy,
    lock recovery.
  - `mint.rs`: the steps of the rebalance, manual top-up and preview flows.
  - `query.rs`, `guards.rs`, `memo.rs`, `stable.rs`: reads, access rules,
    mint memos, the stable-memory layout.
  - `laws.rs`: properties that span operations.
  - `outside.rs`: the contracts relied on from `candid` and
    `icrc-ledger-types`.
- `app/` — the canister around the library: Candid types, methods, ledger
  calls, the hourly timer and persistence.
- `tests/` — scenarios run against the compiled library.
