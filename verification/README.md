# raphael

The searchable game data, labels and solver bookkeeping of a crafting-rotation
solver, verified with Verus.

- `src/text.rs`: characters of strings, white-space words, substring search,
  lowercasing.
- `src/data.rs`: the game data read by searches and labels, item names by
  locale and quality.
- `src/search.rs`: finding recipes, meals and potions by the words of a search.
- `src/sim.rs`: actions, action sets and the state of a craft.
- `src/reduced_state.rs`: the reduced state used for lower bounds on steps, and
  the pruning of actions when CP costs nothing.
- `src/widgets.rs`: item and recipe labels, copied names, action icon files.
- `src/solver_view.rs`: solver settings, solver progress, counts with thousands
  separators.
- `app/`: egui widgets, the solver driver and serializable copies of settings.
