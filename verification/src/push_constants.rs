//! The block of constants that every frame pushes to the fragment shader.
//!
//! The layout is agreed with the shader bit for bit: three 32-bit floats,
//! the time first, then the horizontal and the vertical resolution, twelve
//! bytes from offset 0 without padding.

use crate::float_bits::{f32_magnitude, f64_to_f32_bits, narrowed, u32_to_f32_nowarn, F32_INFINITY};
use crate::swapchain::Extent2D;
use vstd::arithmetic::power2::pow2;
use vstd::prelude::*;

verus! {

/// Size of the block in bytes.
pub const PUSH_CONSTANTS_SIZE: u32 = 12;

/// Offset of the block within the push-constant memory.
pub const PUSH_CONSTANTS_OFFSET: u32 = 0;

/// The block, each field the bits of a 32-bit float.
#[derive(Clone, Copy, Debug, PartialEq, Eq, Structural)]
pub struct PushConstants {
    /// Simulation time in seconds.
    pub time: u32,
    /// Width of the picture in pixels.
    pub res_x: u32,
    /// Height of the picture in pixels.
    pub res_y: u32,
}

/// Whether `bits` is the 32-bit float whose value is the whole number
/// `value`: finite, not negative, and of that magnitude.
pub open spec fn is_f32_of(bits: u32, value: nat) -> bool {
    bits < F32_INFINITY && f32_magnitude(bits) == value * pow2(149)
}

/// The part of a pixel count that the conversion to a float keeps: its
/// low 23 bits.
pub open spec fn kept(pixels: u32) -> nat {
    (pixels & 0x007f_ffff) as nat
}

impl PushConstants {
    /// Whether this is the block for a clock reading and a picture size:
    /// the clock narrowed to 32 bits, and each dimension as a float.
    pub open spec fn is_for(self, current_time: u64, width: u32, height: u32) -> bool {
        &&& self.time == narrowed(current_time)
        &&& is_f32_of(self.res_x, kept(width))
        &&& is_f32_of(self.res_y, kept(height))
    }

    /// The block for a clock reading, given as the bits of a 64-bit float,
    /// and the size of the picture.
    pub fn new(current_time: u64, extent: Extent2D) -> (block: PushConstants)
        ensures
            block.is_for(current_time, extent.width, extent.height),
    {
        PushConstants {
            time: f64_to_f32_bits(current_time),
            res_x: u32_to_f32_nowarn(extent.width),
            res_y: u32_to_f32_nowarn(extent.height),
        }
    }
}

} // verus!
