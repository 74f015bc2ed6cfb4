# foxkanes

A predator/prey game protocol on alkanes whose parameters are either fixed
forever or computed from on-chain state, written as a Verus library.

- `src/` is the verified library: the autonomous-parameter formulas
  (`support`), the constants, the game contract's storage and handlers
  (`game`, `game_lottery`, `game_claims`, `game_hunts`, `game_views`), the
  zap router (`zap`), the receipt contracts (`receipts`), and the values,
  wire format and storage cells they share. Where a handler has to wait on
  another contract, it is split in a planning step, which says which call to
  make, and an applying step, which takes what the call returned.
- `src/game_laws.rs` and the `law_*` proof functions of `support`,
  `codec`, `receipts` state the laws that span operations.
- `app/` puts the library on the alkanes runtime: opcode dispatch, storage
  and the calls into child contracts.
- `tests/` runs the library on concrete values.
