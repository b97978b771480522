//! Verified core of a fullscreen post-processing pass: the GPU-visible
//! settings block and its byte layout, the shader selection cell, the
//! pipeline cache entry with the reactor that rebuilds it when the shader
//! changes, and the render-graph node that draws the pass.
//!
//! Everything here works on plain values. The engine objects (textures,
//! samplers, buffers, compiled pipelines) are named by identifiers, and each
//! function returns a description of what has to be done on the GPU; the
//! program around this library performs it.

pub mod consts;
pub mod plugins;
pub mod scene;
