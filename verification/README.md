# bar_game

The decision logic of a deterministic real-time strategy game, written in
Verus: each function states what it computes in `requires` / `ensures`, and
Verus proves the code against it.

## Layout

- `src/` — the verified library.
  - `rng` — seeded linear congruential generator.
  - `units` — unit definitions and the registry ordered by unit type id.
  - `building` — placement labels; plans for finishing completed buildings
    and equipping factory-spawned units.
  - `ai` — AI phases, the default and passive strategies, and how an AI
    action is carried out.
  - `game` — pause, placement mode, frame counter and the end of the game.
  - `input` — keyboard, mouse and build-menu dispatch.
  - `setup` — grid and fog sizes, weapon id assignment, start positions and
    commander types.
  - `loadtest` — load-test waves and the headless client's opening armies.
  - `matchmaker`, `lobby`, `session` — the server's matchmaking queue,
    connection-to-game routing and per-session bookkeeping.
  - `audio` — per-category playback limits.
  - `camera` — panning keys and the frame-rate window.
- `tests/` — tests of the library on concrete values.
- `app/` — the server program and the code around the simulated world,
  the network, the audio device and the floating-point camera.

Laws that span several functions (matchmaking conserves players, a
disconnected player is routed nowhere, the passive AI never builds an army,
waves never exceed the unit cap, …) are public proof functions next to the
functions they speak of.
