//! Configured defaults of the post-processing pass.
//!
//! Real-valued defaults are stored as IEEE 754 single-precision bit
//! patterns, the form in which they reach the uniform block.

use vstd::prelude::*;

verus! {

/// Nominal render width in pixels, as a single-precision bit pattern (1280).
pub const GAME_WIDTH: u32 = 0x44A0_0000;

/// Nominal render height in pixels, as a single-precision bit pattern (720).
pub const GAME_HEIGHT: u32 = 0x4434_0000;

/// Asset path of the shader that is selected at startup.
pub const DEFAULT_SHADER_PATH: &'static str = "shaders/post_process.wgsl";

/// Whether the pass is applied: 1 = on, 0 = off.
pub const DEFAULT_POSTPROCESS_ENABLE: u32 = 1;

/// Whether dithering is applied: 1 = on, 0 = off.
pub const DEFAULT_DITHER_ENABLE: u32 = 1;

/// Whether dithering is monochrome: 1 = on, 0 = off.
pub const DEFAULT_DITHER_MONOCHROME: u32 = 0;

/// Grayscale threshold bias of the dither, as a single-precision bit
/// pattern (one hundredth).
pub const DEFAULT_DITHER_INTENSITY: u32 = 0x3C23_D70A;

/// Scale of a dither cell.
pub const DEFAULT_DITHER_SCALE: i32 = 2;

/// Coefficient that selects the ordered-dither matrix per threshold, as a
/// single-precision bit pattern (two). It only has an effect up to the
/// number of matrices the shader provides.
pub const DEFAULT_WEIGHT_SCALE: u32 = 0x4000_0000;

/// Whether edge detection is applied: 1 = on, 0 = off.
pub const DEFAULT_EDGE_ENABLE: u32 = 1;

/// Detection threshold of the edge effect, as a single-precision bit
/// pattern (five hundredths).
pub const DEFAULT_EDGE_STRENGTH: u32 = 0x3D4C_CCCD;

} // verus!
