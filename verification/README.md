# dstrafe

A counter-strafe training overlay. It listens for movement keys and left
mouse clicks, classifies each shot as `Counter-strafe`, `Overlap` or `Bad`,
and shows the verdict in an always-on-top overlay.

## Layout

- `src/` is the verified library (Verus):
  - `classifier.rs`: per-axis key tracking, the shot verdict, the thresholds,
    the choice between the two axes, and the rendered verdict text;
  - `config.rs`: the movement keys and debug switch taken from a decoded
    `dstrafe.toml`, and the warning shown when the file is invalid;
  - `input.rs`: hotkeys, the Ctrl+F7 shortcut and the listener that turns
    input events into classifier updates and overlay commands;
  - `text_size.rs`: the overlay text sizes changed by `=` and `-`;
  - `text.rs`: ASCII case folding, Unicode white space, trimming, decimals;
  - `laws.rs`: properties of the library proved over the contracts' specs.
- `app/` is the program around it: the window and rendering (egui, wgpu,
  winit), the global input hooks (rdev, or the Win32 hooks on Windows), the
  clock, file access and TOML decoding (serde, toml).
- `tests/` runs the library on concrete inputs.

## Time

The library works on whole milliseconds (`i64` timestamps, `i128`
durations). The program's clock counts whole milliseconds since the input
listener started.

## Configuration

```toml
debug = false

[movement]
forward = "W"
backward = "S"
left = "A"
right = "D"
```

Each key must be a single ASCII letter or digit (surrounding white space is
ignored; letters are taken in upper case), and the four keys must differ.
An invalid file is ignored with a warning and the defaults are used.
