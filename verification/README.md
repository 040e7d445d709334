# game_core

The rules of a horde-survival roguelike, verified with Verus, and the Bevy
program that plays them.

- `src/` is the library, proved by Verus against its `requires`/`ensures`
  contracts: the Run state machine (`flow`), waves and edge
  spawns (`waves`, `enemy`), hits, Effective Damage and contact damage
  (`combat`, `damage`), the materials economy and the shop (`economy`,
  `shop`), weapon upgrade paths and Evolutions (`upgrade`), orb bookkeeping
  (`orbs`), the starting-weapon screen and the damage summary (`ui`), the
  player's preferences (`settings`), the seeded random stream (`rng`), the
  background hash (`background`) and the scripted player's decisions (`ai`).
  Hit points and damage are counted in tenths of a point, multipliers in
  percent. Laws that span several functions are public proof functions whose
  names start with `law_`.
- `rng` calls `rand` / `rand_chacha` through three small trusted wrappers;
  they are the only items whose contracts are believed rather than proved.
  The generator tracks its seed and how many words of its stream were read,
  and each draw is stated as a function of the two, so equal seeds replay.
- `app/` is the program: windowing, input, sprites, sound, screens, and the
  floating-point world (positions, timers, collision) that measures what
  happened and hands it to the rules.
- `tests/` exercise the library from outside.

Run with `--seed N` (or `GAME_SEED`) to replay a session, `--waves N` (or
`GAME_WAVES`) to change the Run length, and `--ai` to let the scripted
player play.
