# mini_gta

The rules of a small open-world city game (a Bevy 0.15 program), as a
library verified with Verus, and the game itself around it.

- `src/` — the verified library. Quantities that decisions depend on are
  integers: milliseconds, milli-HP, whole dollars, metres for the city grid
  and millimetres for position tests.
  - `state` — global game state, notifications, wanted level and its decay
  - `police` — how many cop cars chase the player, light bars, contact
    damage and the bust
  - `weapons` — fists/pistol state machine, shot resolution, damage, kill
    rewards, effect lifetimes
  - `player` — stealing and leaving cars, position reset, punches
  - `city`, `geometry` — grid layout, street lamps, block plans, building
    collisions, sidewalks, intersections
  - `traffic` — spawn draws for cars, cops and pedestrians, AI turns
  - `input`, `hud`, `text` — key edges, cursor capture, HUD panels and text
  - `rng` — the random draws, through `rand`
  - `laws` — properties spanning several parts (the pause)
- `app/` — the Bevy game: rendering, physics, camera, day/night lighting,
  egui HUD, converting between the engine's floats and the rules' units.
- `tests/` — tests of the library.
