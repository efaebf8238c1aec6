# agentq

An embeddable job queue for agent tool calls: idempotency keys so a retry does
not re-run work that already succeeded, bounded lanes per priority, and a
concurrency limit per lane.

## Layout

- `src/` — the verified library.
  - `ledger.rs`: the dedup table. `Ledger::claim` answers a push of a key from
    cache, by joining the job in flight, or by claiming the key; `begin`,
    `finish`, `settle_send` and `release` record what happens to the claimed
    job. Every operation is specified over `LedgerView`, a pair of maps (key to
    state, key to waiting callers), and the steps of the queue's protocol
    (`Step`) carry the states in which each may happen. A panicked job is
    recorded as `State::Panicked`, apart from every failure a job returns.
  - `keymap.rs`: the table from keys to values that backs the ledger, each key
    held once.
  - `config.rs`: lane budgets (`LaneConfig`) and the queue's configuration
    (`QueueBuilder`).
  - `job.rs`, `outcome.rs`, `state.rs`, `error.rs`: jobs, priorities, outcomes,
    key states, errors and their messages, and what a waiting caller gets.
  - `laws.rs`: properties that span several operations (a completed key is
    served from cache and stays completed through any run of allowed steps, a
    key has at most one job in flight, the claiming caller stays registered
    until its job ends, an abandoned claim leaves no trace, and so on), proved
    over the specification.
- `app/` — the tokio runtime around the library: channels, semaphores, worker
  tasks, the job handle future, and the error types' `Display`/`Error` impls.
- `tests/` — tests of the library on concrete values.
