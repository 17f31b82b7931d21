# toy_game

The rules of a small top-down role-playing game, written in Verus and proved
against their contracts.

- `src/` is the verified library: character levels and stat points, the
  inventory and its drag-and-drop rules, the window and widget event handling,
  the game-pad and keyboard event translation and the menu state machine, the
  inside of buildings (carpets and furniture), the skeleton enemy's sprites and
  statistics, seeded grass placement, text
  outlining on RGBA pixel buffers, font atlases, animations and health bars
  (as the rectangles they draw), and the public laws that tie these together.
- `tests/` runs the library on concrete values.
- `app/` is a small headless driver: it holds the parts that work on floating
  point (live statistics, distances, the reward label's position), the game-pad
  search and the input loop that feeds events to the library and performs what
  it asks for, and prints what the library computes.

Randomness comes from `rand`, `rand_pcg` and `rand_seeder`, called from the
library through a few trusted wrappers whose contracts are written next to them
in `src/environment.rs`; two more trusted wrappers stand for standard-library
calls: string equality (`str_eq` in `src/registry.rs`) and decimal formatting
(`decimal_string` in `src/window.rs`).
