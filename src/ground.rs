//! The ground plane: one square quad at height zero, two triangles wound
//! counter-clockwise as seen from above, so that its normal points up.
use vstd::prelude::*;
use crate::config::GROUND_HALF_EXTENT;

verus! {

/// A ground corner in world units.
#[derive(Clone, Copy, Debug, PartialEq, Eq, Structural)]
pub struct GroundVertex {
    pub x: i32,
    pub y: i32,
    pub z: i32,
}

/// The four corners: back-left, back-right, front-right, front-left.
pub open spec fn ground_vertices_spec() -> Seq<GroundVertex> {
    let h = GROUND_HALF_EXTENT;
    let m = (-h) as i32;
    seq![
        GroundVertex { x: m, y: 0, z: m },
        GroundVertex { x: h, y: 0, z: m },
        GroundVertex { x: h, y: 0, z: h },
        GroundVertex { x: m, y: 0, z: h },
    ]
}

/// The two triangles `(0, 2, 1)` and `(0, 3, 2)`.
pub open spec fn ground_indices_spec() -> Seq<u32> {
    seq![0u32, 2u32, 1u32, 0u32, 3u32, 2u32]
}

/// The vertical component of `(b - a) x (c - a)`: positive when the
/// triangle `(a, b, c)` faces up under counter-clockwise front faces.
pub open spec fn normal_y(a: GroundVertex, b: GroundVertex, c: GroundVertex) -> int {
    (b.z - a.z) * (c.x - a.x) - (b.x - a.x) * (c.z - a.z)
}

/// `normal_y` of the `t`-th ground triangle.
pub open spec fn ground_triangle_normal_y(t: int) -> int {
    let v = ground_vertices_spec();
    let i = ground_indices_spec();
    normal_y(v[i[3 * t] as int], v[i[3 * t + 1] as int], v[i[3 * t + 2] as int])
}

/// Corner table of the ground quad.
pub fn ground_vertices() -> (r: Vec<GroundVertex>)
    ensures
        r@ == ground_vertices_spec(),
{
    let h = GROUND_HALF_EXTENT;
    let m = -h;
    let r = vec![
        GroundVertex { x: m, y: 0, z: m },
        GroundVertex { x: h, y: 0, z: m },
        GroundVertex { x: h, y: 0, z: h },
        GroundVertex { x: m, y: 0, z: h },
    ];
    assert(r@ =~= ground_vertices_spec());
    r
}

/// Index list of the ground quad.
pub fn ground_indices() -> (r: Vec<u32>)
    ensures
        r@ == ground_indices_spec(),
{
    let r = vec![0u32, 2, 1, 0, 3, 2];
    assert(r@ =~= ground_indices_spec());
    r
}

/// Every ground index names a corner, and both triangles of the quad face
/// up.
pub proof fn lemma_ground_faces_up()
    ensures
        forall|k: int|
            0 <= k < ground_indices_spec().len() ==> #[trigger] ground_indices_spec()[k]
                < ground_vertices_spec().len(),
        forall|t: int| 0 <= t < 2 ==> #[trigger] ground_triangle_normal_y(t) > 0,
{
    let v = ground_vertices_spec();
    let i = ground_indices_spec();
    assert(i[0] == 0 && i[1] == 2 && i[2] == 1 && i[3] == 0 && i[4] == 3 && i[5] == 2);
    assert(v[0].x == -25 && v[0].z == -25);
    assert(v[1].x == 25 && v[1].z == -25);
    assert(v[2].x == 25 && v[2].z == 25);
    assert(v[3].x == -25 && v[3].z == 25);
    assert(ground_triangle_normal_y(0) == 4 * 25 * 25);
    assert(normal_y(v[0], v[3], v[2]) == 4 * 25 * 25);
    assert(ground_triangle_normal_y(1) == 4 * 25 * 25);
}

} // verus!
