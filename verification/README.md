# Driftlands

The rules of Driftlands, a survival game, as a verified library, with a thin
game loop around it.

- `src/` is the library, written in Verus. Every function carries a
  contract and the laws of the game (what crafting takes and gives, that
  chests and deaths never lose items, how enemies and fishing attempts move
  from stage to stage, and so on) are stated and proved as proof functions.
  Randomness comes from `rand`'s thread-local generator through two small
  trusted wrappers in `src/rng.rs`.
- `tests/` runs the library on concrete values.
- `app/` is the program: a headless Bevy loop that holds the library's
  state in resources, feeds it input and time, and does the floating-point
  parts (the day clock, damage numbers, health scaling, sound synthesis) and
  the file output.
