# nbody

Building blocks of an N-body gravity simulation.

- `src/` is the verified library `nbody`: payload references handed to
  effects, the phase-space point `Vec6` over any vector type, the choice of
  samples when computing energies along a record, the Bulirsch–Stoer
  sub-step sequence and extrapolation tableau, the snapshot budget of an
  integration run, and small helpers for recording accelerations.
- `app/` is the floating-point side built on it: 3-vectors, bodies, centre of
  mass, records, energies, the direct force model and the Euler, leap-frog,
  Runge–Kutta and Bulirsch–Stoer integrators.
- `tests/` exercises the library on concrete values.
