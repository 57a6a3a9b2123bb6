# orbital

The verified core of the Orbital rendering engine, written in Verus.

- `src/` — the library, verified with Verus:
  - `preprocessor` — WGSL shader assembly from named nodes: nodes, node
    libraries, a registry keyed by node name (and a process-wide one that
    starts empty), and a builder that resolves nodes with their
    transitive dependencies, dependencies first, each once. `laws` states what
    registration and resolution guarantee across calls.
  - `shader_libs` — the math and debug node libraries.
  - `asset_libs` — the engine, PBR, 2D and world-environment node libraries,
    built from the text of their node files.
  - `shadow` — assignment of shadow slots, layers, cube maps and matrix entries
    to shadow-casting lights.
  - `cull` — byte layouts and dispatch sizes of GPU instance culling.
  - `text` — the shelf packer of the glyph atlas and the copy of glyph pixels
    into it.
  - `ui` — UI component state, button/checkbox/text-box updates, hit ordering.
  - `world_environment` — IBL cache file encoding, mip chain arithmetic,
    dynamic-sky decisions, sampling types.
  - `resources`, `texture`, `touch_ui` — resource descriptions.
- `tests/` — tests of the library.
- `app/` — engine-side code around the library: floating-point geometry,
  colours and layout, font rasterization, file access, logging and GPU data.
