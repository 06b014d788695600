# ui_kit

The verified core of a GPUI component kit, written in Verus.

- `src/click.rs` — the state machine that tells single clicks from double
  clicks (delayed single click, immediate double click, cooldown after a
  double click), with its laws.
- `src/spinner.rs` — which icon a loading spinner draws: its own, the app-wide
  default, or the loader icon.
- `src/style.rs` — the frosted-surface rim colour and the raised-control
  shadow, in exact fixed-point units.
- `src/crate_path.rs` — how a procedural macro resolves the path to GPUI from
  the crate's manifest, through `proc-macro-crate` and `proc-macro2`.
- `app/` — the GPUI glue: element extensions, the spinner element and the
  themed styles that work in floating point.
