# salvation

The rules of a top-down zombie shooter, written in Verus and proved against
their contracts, and the engine layer that runs them.

- `src/` is the verified library: the state machines of the player, the
  zombies (common, boomer, pitcher, boss) and the weapons; the combat
  arithmetic; the spawners and the level; the save store; the endless ground
  and the world's tile bookkeeping. Each module ends with the laws it proves
  (`law_*` proof functions).
- `app/` is the Godot side: nodes, scenes, sounds, physics and everything on
  floating point. It reads the engine's state, hands plain values to the
  library, and carries out what the library decides.
- `tests/` runs the library on concrete values.

The library calls `dashmap`, `serde_json` and `rand` through a few trusted
wrappers, each documented with what it claims of the outside function.
