# editor_cameras

The camera logic of a bevy scene editor, verified with Verus.

- `src/` — the library: the editor camera kinds and their menu, the camera
  window's state, how the `ActiveEditorCamera` marker moves, which editor
  camera renders and takes input each frame, how opening and closing the
  editor switches the scene's own cameras off and on again, the initial
  choice and placement of the editor camera, the editor cameras spawned at
  startup, and how focus requests are counted. Each function states its
  result exactly; the laws that tie calls together are proof functions
  beside them (`lemma_*`).
- `tests/` — the library on concrete values.
- `app/` — the bevy systems, components and egui UI that read the world,
  call the library and write its answers back, and the `f32` framing of the
  selection.
