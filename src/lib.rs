//! The decision logic of a real-time renderer that draws each frame with a
//! GPU compute pass and shows it by texturing a full-screen quad.
//!
//! The library owns the camera model, the per-frame scheduling decisions
//! (input handling, termination, what each pass sends to the GPU and in which
//! order), the render target's description and the timing accumulators. It
//! issues no GPU call itself: each pass is a list of `gpu::GpuCommand`s that
//! the host program carries out in order on its GL context.

pub mod camera;
pub mod debug_output;
pub mod gpu;
pub mod ray_tracer;
pub mod scheduler;
pub mod texture_drawer;
pub mod timing;
pub mod vertex_layout;
pub mod world;
