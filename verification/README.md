# nih_plug_dioxus

Editor support for audio plugins whose UI is written with Dioxus: window and render-target
sizing, resize bookkeeping between UI, window and host, pointer-event handling, GPU readback
of rendered frames, scene overlays, and REAPER's embedded (inline) UI with its bitmap
drawing primitives.

- `src/` is the library, verified with Verus. Its functions state their results in `ensures`;
  where a result comes from an `EmbeddedEditor` implementation (a trait that users
  implement), the contract states which editor method is called, what it is handed, and
  what the library makes of its answer. Properties that span several calls are public proof functions
  (`lemma_*`).
- `app/` holds the parts that only run inside a plugin host: windows, GPU, Dioxus documents,
  the CLAP extension glue, and the widgets (which work in floating point).
- `tests/` runs the library on concrete values.
