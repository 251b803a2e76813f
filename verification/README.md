# plumbob

Drives the SteelSeries Sims 4 Collector's Edition USB Plumbob: emotion names
become colors, colors become 33-byte HID output reports, and a daemon fades the
LED toward the latest requested color.

- `src/` — the verified library (Verus):
  - `effects.rs`: the Paralives emotion palette (ASCII-case-insensitive lookup),
    the Sims 4 mood palette, the frame-by-frame fade (which a newer target
    interrupts), and the mood-demo state machine.
  - `report.rs`: layout of the set-color HID report and the write-length check.
  - `color.rs`: parsing of `#RRGGBB` arguments.
  - `service.rs`: the daemon's decisions — request to color target (GameSense
    events only when they are `MOOD` or `EMOTION`), GameSense value to color, and how the LED worker chains its fades.
- `app/` — the program around it: hidapi device access, `f32` fade
  interpolation and sleeping, the CLI, and the axum/tokio HTTP daemon (run the
  binary as `plumbob-daemon`).
- `tests/` — tests of the library.
