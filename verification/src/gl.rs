//! The enumerants of WebGL 1.0 that the compositor hands to the host, and
//! the conversion of an attribute location to an attribute index.

use vstd::prelude::*;

verus! {

/// The bit of the colour buffer in a clear mask.
pub const COLOR_BUFFER_BIT: u32 = 0x4000;

/// Draw mode: every three vertices make one triangle.
pub const TRIANGLES: u32 = 0x0004;

/// Buffer target: vertex attribute data.
pub const ARRAY_BUFFER: u32 = 0x8892;

/// Buffer usage: written once, drawn from many times.
pub const STATIC_DRAW: u32 = 0x88E4;

/// Data type: 8-bit unsigned integer.
pub const UNSIGNED_BYTE: u32 = 0x1401;

/// Data type: 32-bit float.
pub const FLOAT: u32 = 0x1406;

/// Pixel format: red, green, blue, alpha.
pub const RGBA: u32 = 0x1908;

/// Shader type: fragment shader.
pub const FRAGMENT_SHADER: u32 = 0x8B30;

/// Shader type: vertex shader.
pub const VERTEX_SHADER: u32 = 0x8B31;

/// Shader parameter: whether the last compilation succeeded.
pub const COMPILE_STATUS: u32 = 0x8B81;

/// Program parameter: whether the last link succeeded.
pub const LINK_STATUS: u32 = 0x8B82;

/// Texture filter: the nearest texel.
pub const NEAREST: u32 = 0x2600;

/// Texture parameter: the filter used when a texel covers several pixels.
pub const TEXTURE_MAG_FILTER: u32 = 0x2800;

/// Texture parameter: the filter used when a pixel covers several texels.
pub const TEXTURE_MIN_FILTER: u32 = 0x2801;

/// Texture target: two-dimensional texture.
pub const TEXTURE_2D: u32 = 0x0DE1;

/// The index of a vertex attribute as the host takes it: the location that
/// the lookup gave, read as an unsigned number of the same 32 bits. A
/// location that was found is its own index; the location -1 of a name that
/// was not found is the index 4294967295.
pub open spec fn index_of_location(location: i32) -> int {
    if location >= 0 {
        location as int
    } else {
        location + 0x1_0000_0000
    }
}

/// Computes [`index_of_location`].
pub fn attribute_index(location: i32) -> (index: u32)
    ensures
        index == index_of_location(location),
{
    if location >= 0 {
        location as u32
    } else {
        u32::MAX - ((-(location + 1)) as u32)
    }
}

} // verus!
