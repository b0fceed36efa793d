//! The layout of the vertex buffer, four vertices of six values each, and of
//! what reads it: the three vertex attributes and the element indices.

use vstd::prelude::*;
use crate::geometry::{Coordinates, Fraction, Ratio, Rect};

verus! {

/// Values per vertex: a position and two texture coordinates, of two values
/// each.
pub const VALUES_PER_VERTEX: usize = 6;

/// Values in the vertex buffer of one quad.
pub const VERTEX_VALUES: usize = 24;

/// Bytes that one value takes in the vertex buffer.
pub const BYTES_PER_VALUE: usize = 4;

/// One vertex attribute of the pipeline: which values of a vertex the shader
/// input at `location` reads.
#[derive(Clone, Copy, Debug, PartialEq, Eq)]
pub struct VertexAttribute {
    /// The shader input.
    pub location: u32,
    /// How many values it reads.
    pub components: usize,
    /// Bytes from one vertex to the next.
    pub stride: usize,
    /// Bytes from the start of a vertex to the first value read.
    pub offset: usize,
}

/// Attribute `k`: input `k` reads two values, starting `2 * k` values into
/// the vertex. Input 0 is the position, input 1 the place in the current
/// image, input 2 the place in the previous image.
pub open spec fn attribute(k: int) -> VertexAttribute {
    VertexAttribute {
        location: k as u32,
        components: 2,
        stride: (6 * 4) as usize,
        offset: (2 * k * 4) as usize,
    }
}

/// The element indices of a quad: two triangles over the four vertices, which
/// share the diagonal from vertex 0 to vertex 2.
pub open spec fn element_indices() -> Seq<u32> {
    seq![0u32, 1u32, 2u32, 2u32, 3u32, 0u32]
}

/// The x bound of `r` at corner `k` of a quad. The corners are, in order, top
/// left, bottom left, bottom right and top right.
pub open spec fn corner_x(r: Rect, k: int) -> Ratio {
    if k == 0 || k == 1 {
        r.x_left
    } else {
        r.x_right
    }
}

/// The y bound of `r` at corner `k` of a quad.
pub open spec fn corner_y(r: Rect, k: int) -> Ratio {
    if k == 0 || k == 3 {
        r.y_top
    } else {
        r.y_bottom
    }
}

/// Value `i` of the vertex buffer. Vertex `i / 6` is a corner of the quad; of
/// its six values the first two are its position in `position`, the next two
/// its place in `current`, the last two its place in `previous`, x before y.
pub open spec fn vertex_value(position: Rect, current: Rect, previous: Rect, i: int) -> Ratio {
    let k = i / 6;
    let j = i % 6;
    let r = if j < 2 {
        position
    } else if j < 4 {
        current
    } else {
        previous
    };
    if j % 2 == 0 {
        corner_x(r, k)
    } else {
        corner_y(r, k)
    }
}

/// The whole vertex buffer for a quad placed at `position` that samples the
/// current image in `current` and the previous one in `previous`.
pub open spec fn quad_vertices(position: Rect, current: Rect, previous: Rect) -> Seq<Ratio> {
    Seq::new(24, |i: int| vertex_value(position, current, previous, i))
}

/// The values of a sequence of fractions.
pub open spec fn ratios(s: Seq<Fraction>) -> Seq<Ratio> {
    Seq::new(s.len(), |i: int| s[i]@)
}

/// The three vertex attributes of the pipeline: see [`attribute`].
pub fn vertex_attributes() -> (r: [VertexAttribute; 3])
    ensures
        forall|k: int| 0 <= k < 3 ==> #[trigger] r[k] == attribute(k),
{
    let stride: usize = VALUES_PER_VERTEX * BYTES_PER_VALUE;
    [
        VertexAttribute { location: 0, components: 2, stride, offset: 0 },
        VertexAttribute { location: 1, components: 2, stride, offset: 2 * BYTES_PER_VALUE },
        VertexAttribute { location: 2, components: 2, stride, offset: 4 * BYTES_PER_VALUE },
    ]
}

/// The element indices of a quad: see [`element_indices`].
pub fn quad_indices() -> (r: [u32; 6])
    ensures
        r@ == element_indices(),
{
    let r: [u32; 6] = [0, 1, 2, 2, 3, 0];
    assert(r@ =~= element_indices());
    r
}

/// Lays out the vertex buffer of a quad: see [`quad_vertices`].
pub fn get_opengl_point_coordinates(
    vec_coordinates: Coordinates,
    current_tex_coord: &Coordinates,
    old_tex_coord: &Coordinates,
) -> (r: [Fraction; 24])
    ensures
        ratios(r@) == quad_vertices(vec_coordinates@, current_tex_coord@, old_tex_coord@),
        forall|i: int|
            0 <= i < 24 ==> (#[trigger] r[i])@ == vertex_value(
                vec_coordinates@,
                current_tex_coord@,
                old_tex_coord@,
                i,
            ),
{
    let r = [
        vec_coordinates.x_left,
        vec_coordinates.y_top,
        current_tex_coord.x_left,
        current_tex_coord.y_top,
        old_tex_coord.x_left,
        old_tex_coord.y_top,
        vec_coordinates.x_left,
        vec_coordinates.y_bottom,
        current_tex_coord.x_left,
        current_tex_coord.y_bottom,
        old_tex_coord.x_left,
        old_tex_coord.y_bottom,
        vec_coordinates.x_right,
        vec_coordinates.y_bottom,
        current_tex_coord.x_right,
        current_tex_coord.y_bottom,
        old_tex_coord.x_right,
        old_tex_coord.y_bottom,
        vec_coordinates.x_right,
        vec_coordinates.y_top,
        current_tex_coord.x_right,
        current_tex_coord.y_top,
        old_tex_coord.x_right,
        old_tex_coord.y_top,
    ];
    assert(ratios(r@) =~= quad_vertices(vec_coordinates@, current_tex_coord@, old_tex_coord@));
    r
}

/// The attributes read what the vertex buffer holds: component `c` of
/// attribute `k` at vertex `v` lies `v` strides and one offset into the
/// buffer, and the value there is the x (`c == 0`) or y (`c == 1`) bound at
/// corner `v` of the position, of the current image's rectangle or of the
/// previous image's.
pub proof fn lemma_attributes_match_vertex_layout(
    position: Rect,
    current: Rect,
    previous: Rect,
    v: int,
    k: int,
    c: int,
)
    requires
        0 <= v < 4,
        0 <= k < 3,
        0 <= c < 2,
    ensures
        ({
            let a = attribute(k);
            let byte = v * a.stride + a.offset + c * 4;
            let r = if k == 0 {
                position
            } else if k == 1 {
                current
            } else {
                previous
            };
            &&& byte % 4 == 0
            &&& 0 <= byte / 4 < 24
            &&& c < a.components
            &&& quad_vertices(position, current, previous)[byte / 4] == if c == 0 {
                corner_x(r, v)
            } else {
                corner_y(r, v)
            }
        }),
{
    let a = attribute(k);
    assert(a.stride == 24 && a.offset == 8 * k);
    let i = 6 * v + 2 * k + c;
    assert(v * a.stride + a.offset + c * 4 == 4 * i);
    assert(i / 6 == v && i % 6 == 2 * k + c);
}

/// The two triangles that the element indices name make up the quad: the
/// first runs over top left, bottom left and bottom right, the second over
/// bottom right, top right and top left.
pub proof fn lemma_triangles_cover_quad(r: Rect)
    ensures
        ({
            let e = element_indices();
            &&& e.len() == 6
            &&& (corner_x(r, e[0] as int), corner_y(r, e[0] as int)) == (r.x_left, r.y_top)
            &&& (corner_x(r, e[1] as int), corner_y(r, e[1] as int)) == (r.x_left, r.y_bottom)
            &&& (corner_x(r, e[2] as int), corner_y(r, e[2] as int)) == (r.x_right, r.y_bottom)
            &&& (corner_x(r, e[3] as int), corner_y(r, e[3] as int)) == (r.x_right, r.y_bottom)
            &&& (corner_x(r, e[4] as int), corner_y(r, e[4] as int)) == (r.x_right, r.y_top)
            &&& (corner_x(r, e[5] as int), corner_y(r, e[5] as int)) == (r.x_left, r.y_top)
        }),
{
}

} // verus!
