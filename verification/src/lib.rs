//! Safe plan-lifecycle and execution-dispatch layer over a native
//! GPU-accelerated discrete Fourier transform engine.
//!
//! The native engine is an opaque C-style interface: callers obtain an opaque
//! plan handle, configure it for one transform shape and element-type pairing,
//! bind it to an execution stream, and then repeatedly enqueue transforms
//! against device buffers. This crate owns everything that can be decided
//! without touching the device: translating every native status code into a
//! structured error, driving the plan through its lifecycle
//! (unconfigured, configured, destroyed), validating shapes and buffer
//! sizes, and dispatching the six supported transform variants so that a
//! mismatched pairing is rejected before any native call is issued.
//!
//! The native calls themselves are performed by unverified glue around this
//! crate: each fallible step here is split into a request half, which checks
//! the plan's state and hands back the exact parameters of the native call to
//! make, and an apply half, which takes the status code the engine returned
//! and moves the plan to its next state.

pub mod status;

pub mod descriptor;

pub mod plan;

pub mod exec;

pub mod laws;
