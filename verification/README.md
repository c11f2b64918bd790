# origami_store

The document store of an origami design tool, with its behaviour stated in Verus
contracts and proved: the current work (sheet, crease pattern, display settings, fold
sequence), its undo/redo history, the per-step record of the lines each fold added, the
unsaved flag and save location, and the checks that decide what a fold request, a saved
file or a replayed 3D frame is answered.

## Layout

- `src/model.rs` — the data of a work; coordinates and angles are kept as the bit
  patterns of binary64 values.
- `src/store.rs` — the store: commit, undo, redo, editing and sequence operations,
  recording a fold computed by the kernel, previews, saving and opening.
- `src/edits.rs`, `src/steps.rs` — editing operations on a candidate document and the
  fold-sequence bookkeeping (fresh step identifiers, crease records, moves).
- `src/kernel.rs` — the geometric kernel the store calls (faces, validation, segment
  insertion); each kernel trait names each result with a spec function of its
  arguments, and the contracts say what is handed to the kernel and kept of its answer.
- `src/schema.rs` — the header check of a saved work (serde_json behind one wrapper).
- `src/fold_target.rs`, `src/requests.rs`, `src/poses.rs` — what a fold line and a fold
  request are answered, pose steps and the flat-fold notice.
- `src/surface.rs`, `src/top_surface.rs`, `src/replay_check.rs` — stacking orders,
  hinges, the top sheet under a point, and the check of a replay from scratch.
- `src/folding.rs` — folds computed by the kernel (through the flat state, after a
  pose, or in 3D), techniques and flat motions, recorded as one change each.
- `src/replay.rs` — the replay of the steps attached to a view: layer corrections and
  warnings as the display settings ask, penetration diagnostics, the flat-fold notice.
- `src/crease_only.rs` — creasing only the top sheet of a partly folded work, checked
  against the pose and a replay from scratch before it is committed.
- `src/frames.rs` — measured hinge angles of the sample patterns, their frames, and the
  triangles of each face.
- `src/laws.rs` — properties spanning several operations (undo/redo round trips, the
  faces following the crease pattern, the history limit, moves, fresh identifiers).
- `src/prng.rs`, `src/fixture.rs`, `src/text.rs` — a deterministic generator, sample
  crease patterns, and message formatting.
- `app/` — file I/O, the JSON file format, floating-point leaves and the ori3 kernel.
- `tests/` — tests run against the compiled library.
