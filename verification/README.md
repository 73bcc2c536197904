# game_test

The gameplay core of a deterministic platform fighter, written in Verus:
every function in `src/` carries a contract that Verus proves.

- `math`: Q16.16 fixed-point scalars (`FGi32`, with a Q96.32 `FGWide` for
  intermediate results), 2D and 3D vectors, segments and their
  intersection, and CORDIC sine and cosine. Multiplication, division and
  square roots of the wide type are done by the `fixed` crate.
- `input`: key and button bindings, keyboard sampling, deadzones, the
  per-fighter command buffer (smash inputs, jump, shield, attack), the
  choice of input source per player, and the GameCube adapter's ports.
- `fighter`: attributes, the ECB, motion, attacks and knockback, hurtbox
  capsules and their GJK intersection test, baked skeletal animation and
  bone matrices, fighter manifests, stage collision and the state machine
  (wait, walk, dash, run, turn, jump squat, jump, fall, land, air dodge,
  ground attack).
- `match_loading`: the match request, player handles, spawn positions and
  the checks a match's assets must pass.
- `debug_tools`: the debug palette's menus and settings.

The proof functions in `src/` state the library's laws (for example that
friction never reverses a fighter, that falling never exceeds terminal
velocity, or that a new input frame keeps the command buffer consistent).

`app/` is a headless front end: it reads the game settings and fighter
manifests (RON), validates them, and sets up the default match. `tests/`
holds the tests.
