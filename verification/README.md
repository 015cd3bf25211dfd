# dodge_rl

A 3D projectile-dodging game that doubles as a reinforcement-learning
environment: an agent drives the player through an HTTP API (discrete or
continuous actions) and receives vector or top-down image observations.

The crate is split in two:

- `src/` is the verified library, checked by Verus. It holds the discrete
  configuration (levels, action spaces, observation modes, image size), the
  validation of what clients send (with the exact error messages), the
  discrete actions and the layout of continuous actions, the environment
  session that the game loop drives with API commands, the observation
  vector layout, the top-down image raster, and what the servers answer
  about observation and action spaces. `src/laws.rs` states the properties
  that relate several of these operations.
- `app/` is the game itself, on Bevy: scene, physics, rewards and every
  other real-valued computation, the HTTP server (axum), and the loop that
  hands API commands to the library's session and applies its decisions.

Two outside functions are trusted: `str::to_lowercase` (names sent by
clients are matched in any letter case) and the base64 encoder of the
`base64` crate (image observations over HTTP). Their contracts name their
results instead of restating them; see `src/text.rs` and `src/api.rs`.

The tests under `tests/` run the library on concrete values.
