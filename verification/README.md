# colosseum

A verified model of an on-chain marketplace for AI agents: agents register
with a stake, posters lock payments in escrow, workers accept and deliver,
disputes are ruled on, and ratings decide an agent's tier.

## Layout

- `src/` — the library, verified with Verus. One module per program:
  `agent_registry`, `job_escrow`, `dispute_resolver`, `reputation` (the four
  standalone programs) and `colosseum_programs` (the combined program). Each
  instruction is a function whose contract gives its first failing check and
  the exact records it produces. Each program's `properties` module proves
  what holds across instructions: escrows pay out at most once, settled jobs
  are final, vaults agree with their jobs, identities and NFTs are set once,
  tiers grow with jobs and ratings, rulings pay out exactly the escrow and
  only to the job's parties, a deactivated agent accepts no job, and only a
  job's parties dispute it or rate each other.
- `tests/` — tests of the library on concrete values.
- `app/` — the on-chain side: account layouts, account validation (seeds,
  bumps, account creation), the clock, lamport writes and system transfers,
  around calls into the library. `app/lib.rs` is the combined program; the
  `*_program.rs` files hold the accounts and handlers of the standalone
  programs.
