# gromaq

The CPU-side rendering logic of the Gromaq GPU terminal emulator, verified with
Verus.

- `src/` is the verified library: the render planner (backgrounds, selection,
  text decorations, dirty-region clipping), the LRU glyph atlas cache, glyph
  bitmap padding and atlas packing, glyph quad planning, surface configuration
  and its lifecycle, frame pacing, checked buffer and readback layouts, PPM
  snapshots, smoke-run pixel statistics, and the PTY reader's decisions.
- `app/` is the platform layer around it: the `wgpu` device, offscreen
  targets and window surface, the PTY session, and the floating-point vertex
  and color math.
- `tests/` exercises the library through its public API.
