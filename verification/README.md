# niri_sweaters

Verified core of the niri-sweaters additions to the niri compositor: knitted
window borders, desktop zoom and region selection.

- `src/zoom.rs` — the lifecycle of the per-output desktop zoom state: which
  variant (resting, following, zooming, gesturing, locked) the state is in and
  where every operation leads, with its laws.
- `src/region.rs`, `src/ipc.rs` — region selection and the region frame:
  integer geometry, the selection lifecycle and frame requests.
- `src/config.rs` — miscellaneous configuration sections and how parsed parts
  merge over resolved values.
- `src/sampling.rs` — scoped texture upscale filters for sampling elements.
- `src/knit.rs`, `src/border.rs` — knit patterns, shader parameter codes and
  the hex color entries of the knit playground.
- `src/cli.rs` — command line payloads of the region commands.
- `app/` — unverified code beside the library: clap and knuffel forms of
  the library's types with conversions, the spring animation, pointer
  positions to region geometry, and hex formatting of float color channels.
  The zoom front end (levels, focal points, viewport, deadzone follow), the
  zoom and overview section merging, the top-level command line, the
  render-element forwarding and the region-selection driver are not here:
  they rest on compositor, rendering and toolkit code outside these sources.
