# openmedia

The verified core of an MCP media server that renders SVG animations,
video scenes, slideshows and frame transitions, and refines generation
prompts.

- `src/` is the library, verified with Verus: the markup of scenes,
  spinners and animations, SVG editing, the frame transitions, the scene
  templates and transition lists, FFmpeg argument lists, image encoding of
  frames, the model registry, request defaults, the prompt refiner and the
  decisions of the auto-refinement loop (rounds, stopping, best record).
  Every public function states its result in its contract; laws that span
  several calls are public proof functions (`lemma_*`).
- `tests/` runs the library on concrete inputs.
- `app/` is the server binary: the MCP tools, file and process I/O, the
  headless browser, SVG rasterization, and the computations on real numbers
  (keyframe interpolation, easing curves, crossfades).
