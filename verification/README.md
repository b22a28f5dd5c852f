# nexus_core

The settlement rules of an agent-native perpetual exchange, verified with Verus.

- `src/` — the library. `instructions/` holds the four on-chain instructions
  (`initialize`, `delegate`, `submit_intent`, `resolve`), each a function over
  the accounts it reads and writes, with a spec function that states its
  outcome exactly (every refusal, in the order the program checks them, and the
  accounts afterwards). `auction.rs` holds the orchestrator's solver auction
  rounds. `laws.rs` proves the properties that span these operations: session
  budgets, at-most-once resolution, the vault taking the other side of every
  fill, and auction quotes respecting the intent's limit.
- `tests/` — tests on concrete values.
- `app/` — the Anchor program glue (account validation, session tokens, the
  clock) and the orchestrator's WebSocket service, which call the library.
