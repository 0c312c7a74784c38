# memristor

A memristor crossbar simulator with a runtime that routes inference tasks to
digital backends, to the analog crossbar or to a Metal GPU.

## Layout

- `src/` is the verified library (Verus). It holds every part of the
  simulator and the runtime that decides or computes on integers, enums and
  vectors: resonance classes, the crossbar's row-major layout and shape
  checks, the conductance change counter, task routing, the CPU/GPU device
  choice, GPU kernel selection and dispatch, upload tracking and command
  plans, the per-session KV store, backend passthrough and execution paths.
  Each public function states its result exactly in its contract; the laws
  that relate functions are public proof functions beside them.
- `app/` is ordinary Rust around the library: the floating-point cell
  physics and matvecs, randomness, process-wide handler slots, the Metal GPU
  runner (macOS only), and copies of library types that carry `serde` or
  `thiserror` derives.
- `tests/` exercises the library from outside.

## Platform convention

The library carries no Metal backend, so the functions without a
`metal_available` argument (`choose_matvec_device`, `metal_kernel_tier`)
give what a build without Metal gives: the CPU and the scalar tier. Their
`_with` forms take whether the backend is available; the host in `app/`
passes `true` where the Metal runner is compiled in (macOS).
