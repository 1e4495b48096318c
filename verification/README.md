# alacritty_tabs

Windows and tabs of a terminal emulator, verified with Verus.

- `src/` decides. A `WindowContext` owns the tabs of a window. Each of its calls is specified by the
  mathematical model (`WindowModel`) that it leads to, together with the effects that it asks of the
  display, the terminals and the PTYs. `src/laws/` proves what holds across calls: which tab stays
  active, where the focus goes, when a title is left alone, that identifiers stay unique.
- `src/trusted.rs` holds the calls into `alacritty_terminal` and `serde_json`, whose contracts are
  believed.
- `app/` carries the effects out on real terminals and PTYs. It reaches the renderer, the windowing
  system and the input processor through traits.
- `tests/` runs the library.
