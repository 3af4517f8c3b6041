# cranky

The logic of Cranky, a status bar for Hyprland, as a verified library.

- `src/domain` — configuration values (and how the `unfocused` section
  overrides them), colours and the colour-string reader, workspaces and
  monitors, the window-manager state machine, applets, metrics settings,
  errors, the application loop's model and its decisions on commands,
  configuration reloads and focus changes, pointer hit-testing.
- `src/adapters` — the configuration file's shape and its expansion into
  configuration values, the Hyprland event-line parser and snapshot
  builder and its publishing rule, the layout engine's patch decisions and
  drawn-tree placement, the tray's decisions, D-Bus keys.
- `src/application` — the list-based workspace tracker.
- `src/frontend` — frame cadence, bar surface sizes, output bookkeeping,
  the configuration a reload leaves, Hyprland's socket paths.
- `src/services` — module lookup (engine choice) and its errors, commands,
  adapter start-up.
- `app/` — the program: reads and watches the configuration file, talks to
  Hyprland's sockets, runs the application loop, and does the
  floating-point work (gradient angles, CPU load scaling, frame durations).
