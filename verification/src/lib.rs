//! A verified core of a small real-time rendering pipeline.
//!
//! The library manages GPU shader programs, caches per-mesh vertex-array
//! state, and walks the scene once per frame issuing draw calls. The GPU
//! itself is host-owned: the library decides which calls to make and records
//! them as commands ([`gpu::GpuCommand`]); the host executes them against the
//! real rendering context.

pub mod cache;
pub mod component;
pub mod engine;
pub mod gpu;
pub mod laws;
pub mod pass;
pub mod render;
pub mod shader;
