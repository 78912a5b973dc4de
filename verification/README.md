# pie_driver

The planning half of a GPU inference driver, verified with Verus: the part that
decides what a device is asked to do, with every address and every device
answer a plain value.

- `src/kernels.rs`: the signature table, which kernel a name belongs to.
- `src/cuda/`: binding a lowered trace's operands, dispatching each launch to
  the entry its kernel names, walking a fire, planning attention, and caching
  captured graphs.
- `src/metal/`: the decode step's vocabulary, launch shapes, dispatch lists,
  scratch sizing, tuning, the step and compile state machines.
- `src/seam.rs`: what the Metal backend states to the engine and refuses.
- `src/strings.rs`, `src/arith.rs`: text and rounding the rest is built on.
- `tests/`: the library's tests.
- `app/`: what needs a process or a device: the environment, CUDA and Metal
  calls, the file system, and the engine's error type. The Metal device code is
  compiled on Apple targets only.

One thing is trusted: how Rust's `Debug` quotes a string, in
`src/cuda/arm.rs`.
