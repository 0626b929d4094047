# Hydra Co-op

A launcher for local split-screen co-op on Linux: it starts several copies
of a game, gives each player their own input device, connects the copies
over a local UDP relay and tiles their windows on screen.

## Layout

- `src/` — the verified library (Verus). It holds the launcher's rules:
  configuration validation and merging, game engine detection and launch
  profiles, compatibility scoring, input-device assignment, window tiling,
  the relay's forwarding table, Proton discovery rules, per-instance
  arguments, environments and directories, audio-sink and bridge commands,
  and the adaptive record of successful and failed launches. Each public
  function carries a `requires`/`ensures` contract; public `proof fn`s state
  properties that hold across calls.
- `app/` — the program around the library: command-line parsing, logging,
  TOML files, `/dev/input` and uinput devices, UDP sockets, the X server,
  process spawning, floating-point confidence scores and the GTK window.
- `tests/` — tests of the library on concrete values.
