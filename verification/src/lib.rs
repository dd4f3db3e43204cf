//! Dual-target frame production and readback pipeline.
//!
//! A benchmark harness renders a scene to both an on-screen surface and an
//! off-screen target, copies the off-screen image into a CPU-visible staging
//! buffer whose rows are padded to the device's copy alignment, strips that
//! padding, and exports the pixels. This library holds the verified core of
//! that pipeline: the row-stride arithmetic, the padding-stripping step, the
//! orbit-light phase layout, the camera-framing rule, the per-frame stage
//! machine with its failure policy, and the frame clock.

pub mod camera;
pub mod frame;
pub mod orbit;
pub mod pixels;
pub mod stride;
pub mod timer;
