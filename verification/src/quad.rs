//! The geometry of the quad and the pixel of its placeholder texture.
//!
//! Coordinates are whole numbers; the host converts each to a 32-bit float,
//! which represents it exactly.

use vstd::prelude::*;

verus! {

broadcast use vstd::array::group_array_axioms;

/// The number of vertices: two triangles of three.
pub const QUAD_VERTICES: i32 = 6;

/// The number of components of a position: x, y, z.
pub const POSITION_COMPONENTS: i32 = 3;

/// The number of components of a texture coordinate: u, v.
pub const TEXTURE_COMPONENTS: i32 = 2;

/// The positions of the six vertices in clip space, x, y, z each: bottom
/// left, bottom right, top right; bottom left, top right, top left.
pub const QUAD_POSITIONS: [i8; 18] = [-1, -1, 0, 1, -1, 0, 1, 1, 0, -1, -1, 0, 1, 1, 0, -1, 1, 0];

/// The texture coordinates of the six vertices, u, v each, in the order of
/// [`QUAD_POSITIONS`].
pub const QUAD_TEXTURE_COORDS: [i8; 12] = [0, 0, 1, 0, 1, 1, 0, 0, 1, 1, 0, 1];

/// The single pixel of the placeholder texture: red, green, blue, alpha.
pub const PLACEHOLDER_PIXEL: [u8; 4] = [255, 255, 255, 255];

/// The width and the height of the placeholder texture, in pixels.
pub const PLACEHOLDER_SIDE: i32 = 1;

/// The corner of the square at which `vertex` lies, as (x, y). The first
/// triangle is the lower right half of the square, the second the upper
/// left half; they share the diagonal from bottom left to top right.
pub open spec fn corner(vertex: int) -> (int, int) {
    if vertex == 0 || vertex == 3 {
        (-1, -1)
    } else if vertex == 1 {
        (1, -1)
    } else if vertex == 2 || vertex == 4 {
        (1, 1)
    } else {
        (-1, 1)
    }
}

/// The position of `vertex` as it stands in [`QUAD_POSITIONS`].
pub open spec fn position(vertex: int) -> (int, int, int) {
    (
        QUAD_POSITIONS@[3 * vertex] as int,
        QUAD_POSITIONS@[3 * vertex + 1] as int,
        QUAD_POSITIONS@[3 * vertex + 2] as int,
    )
}

/// The texture coordinate of `vertex` as it stands in
/// [`QUAD_TEXTURE_COORDS`].
pub open spec fn texture_coord(vertex: int) -> (int, int) {
    (QUAD_TEXTURE_COORDS@[2 * vertex] as int, QUAD_TEXTURE_COORDS@[2 * vertex + 1] as int)
}

/// Whether some vertex lies at (x, y, 0).
pub open spec fn has_vertex_at(x: int, y: int) -> bool {
    exists|vertex: int| 0 <= vertex < QUAD_VERTICES && #[trigger] position(vertex) == (x, y, 0int)
}

/// The position buffer holds 18 numbers and the texture-coordinate buffer
/// 12: three and two for each of the same six vertices.
pub proof fn lemma_quad_sizes()
    ensures
        QUAD_POSITIONS@.len() == 18,
        QUAD_TEXTURE_COORDS@.len() == 12,
        QUAD_POSITIONS@.len() == POSITION_COMPONENTS * QUAD_VERTICES,
        QUAD_TEXTURE_COORDS@.len() == TEXTURE_COMPONENTS * QUAD_VERTICES,
{
}

/// The positions describe the square from (-1, -1, 0) to (1, 1, 0): every
/// vertex lies at a corner of it, in the plane z = 0, and every corner is
/// the place of some vertex.
pub proof fn lemma_positions_describe_square()
    ensures
        forall|vertex: int|
            0 <= vertex < QUAD_VERTICES ==> #[trigger] position(vertex) == (
                corner(vertex).0,
                corner(vertex).1,
                0int,
            ),
        forall|x: int, y: int|
            (x == -1 || x == 1) && (y == -1 || y == 1) ==> #[trigger] has_vertex_at(x, y),
{
    assert forall|vertex: int| 0 <= vertex < QUAD_VERTICES implies #[trigger] position(vertex) == (
        corner(vertex).0,
        corner(vertex).1,
        0int,
    ) by {
        if vertex == 0 {
        } else if vertex == 1 {
        } else if vertex == 2 {
        } else if vertex == 3 {
        } else if vertex == 4 {
        } else {
        }
    }
    assert(position(0) == (-1int, -1int, 0int));
    assert(position(1) == (1int, -1int, 0int));
    assert(position(2) == (1int, 1int, 0int));
    assert(position(5) == (-1int, 1int, 0int));
}

/// The texture coordinates describe the square from (0, 0) to (1, 1), vertex
/// by vertex in the order of the positions: the coordinate of a vertex is
/// its position moved from [-1, 1] to [0, 1] on both axes.
pub proof fn lemma_texture_coords_match_positions()
    ensures
        forall|vertex: int|
            0 <= vertex < QUAD_VERTICES ==> {
                &&& 2 * (#[trigger] texture_coord(vertex)).0 - 1 == position(vertex).0
                &&& 2 * texture_coord(vertex).1 - 1 == position(vertex).1
                &&& 0 <= texture_coord(vertex).0 <= 1
                &&& 0 <= texture_coord(vertex).1 <= 1
            },
{
    assert forall|vertex: int| 0 <= vertex < QUAD_VERTICES implies {
        &&& 2 * (#[trigger] texture_coord(vertex)).0 - 1 == position(vertex).0
        &&& 2 * texture_coord(vertex).1 - 1 == position(vertex).1
        &&& 0 <= texture_coord(vertex).0 <= 1
        &&& 0 <= texture_coord(vertex).1 <= 1
    } by {
        if vertex == 0 {
        } else if vertex == 1 {
        } else if vertex == 2 {
        } else if vertex == 3 {
        } else if vertex == 4 {
        } else {
        }
    }
}

/// The placeholder is one opaque white pixel: four channels, each 255.
pub proof fn lemma_placeholder_is_opaque_white()
    ensures
        PLACEHOLDER_PIXEL@.len() == 4 * PLACEHOLDER_SIDE * PLACEHOLDER_SIDE,
        forall|channel: int| 0 <= channel < 4 ==> #[trigger] PLACEHOLDER_PIXEL@[channel] == 255,
{
}

} // verus!
