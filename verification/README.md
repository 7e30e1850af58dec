# deterrence

The rules of a turn-based nuclear standoff, verified with Verus.

- `src/faction.rs` — the six factions and the twelve cities, with their names.
- `src/arsenal.rs` — warheads, budgets, damage counters and strike orders.
- `src/world.rs` — the state of a match, its invariant, the opening position,
  the resolution of a move and the passing of the turn.
- `src/aggression.rs` — the record of who attacked whom.
- `src/commands.rs` — the answer to a strike order.
- `src/report.rs` — the status listing and the heading that names the mover.
- `src/ledger.rs` — sums over sequences, used by the invariant.
- `src/laws.rs` — properties that span several moves.
- `app/` — the game window: console commands, random draws, logging and UI.
- `tests/` — concrete scenarios.
