# yars_revenge

The rules of a small Yars' Revenge clone, verified with Verus.

- `src/geometry.rs` — playfield layout: screen, neutral zone, shield cell
  edges (vertical edges kept in 1/262144 px, exactly where the
  single-precision layout puts them), overlap tests and bounce directions.
- `src/shield.rs` — the Qotile's shield: bumping (damage, then eat),
  projectiles destroying cells, clear columns.
- `src/tally.rs` — counting live cells.
- `src/missile.rs`, `src/cannon.rs` — the missile and the Zorlon Cannon,
  with the laws that a shot cannot skip a live shield cell at its height,
  and that a shot from the left edge hits the Qotile exactly when it flies
  at the Qotile's height and no live cell stands at that height.
- `src/game.rs` — one game as a state machine: the part of each frame that
  needs no floating point, the reports the caller makes about the Swirl,
  the invariant every step keeps (score never above 7240).
- `app/main.rs` — the macroquad window: input, the Swirl's floating-point
  homing flight, drawing.
