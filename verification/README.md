# biofoundry

The player-facing HUD logic of the Biofoundry colony game, verified with
Verus: what every status badge, banner, hint, objective card and route
ledger line says, and which buttons work, for any state of the colony.

- `src/model.rs` — the snapshot of the colony the HUD reads (creatures,
  buildings, routes, economy) and the data tables. Fractional amounts are
  held in thousandths (`_milli` fields); values the simulation derives, such
  as route capacities and expedition states, are carried as plain readouts.
- `src/legibility.rs`, `src/status.rs`, `src/inspect.rs` — map badges and the
  inspection card.
- `src/top_bar.rs`, `src/jobs.rs` — the top bar and the Jobs panel.
- `src/guidance.rs`, `src/objective.rs`, `src/requirements.rs` — the
  campaign objective and the next steps it names.
- `src/routes.rs`, `src/upgrades.rs` — the Worm Route ledger and the route
  upgrade ladder.
- `src/hud.rs`, `src/help.rs`, `src/specialists.rs` — overlays, reports, the
  field guide and recruit labels.
- `src/laws.rs` — properties that hold across these readouts, proved for
  every colony state.
- `app/` — the renderer's side: screen geometry, colours and the
  floating-point conversions, on top of macroquad.
