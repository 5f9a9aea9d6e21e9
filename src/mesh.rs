//! The blade ribbon: a strip of `n` segments from root to tip, two vertices
//! per level (left, right) and two triangles per segment.
use vstd::prelude::*;

verus! {

/// One vertex of the blade ribbon: its level from the root (`0..=n`) and
/// its side. The position itself (height `level / n`, half-width tapering
/// linearly towards the tip) is derived from these by the renderer.
#[derive(Clone, Copy, Debug, PartialEq, Eq, Structural)]
pub struct BladeVertex {
    pub level: u32,
    pub right: bool,
}

/// Number of vertices of a blade with `n` segments.
pub open spec fn blade_vertex_count_spec(n: nat) -> nat {
    2 * (n + 1)
}

/// Number of indices of a blade with `n` segments.
pub open spec fn blade_index_count_spec(n: nat) -> nat {
    6 * n
}

/// The `k`-th entry of the index list: segment `k / 6` with `base = 2 * (k / 6)`
/// emits `(base, base + 2, base + 1)` then `(base + 1, base + 2, base + 3)`.
pub open spec fn blade_index_at(k: int) -> int {
    let base = 2 * (k / 6);
    let r = k % 6;
    if r == 0 {
        base
    } else if r == 1 {
        base + 2
    } else if r == 2 {
        base + 1
    } else if r == 3 {
        base + 1
    } else if r == 4 {
        base + 2
    } else {
        base + 3
    }
}

/// The `k`-th vertex: level `k / 2`, left side first.
pub open spec fn blade_vertex_at(k: int) -> BladeVertex {
    BladeVertex { level: (k / 2) as u32, right: k % 2 == 1 }
}

/// Vertex count of a blade with `segments` segments.
pub fn blade_vertex_count(segments: u32) -> (r: u32)
    requires
        blade_vertex_count_spec(segments as nat) <= u32::MAX,
    ensures
        r == blade_vertex_count_spec(segments as nat),
{
    2 * (segments + 1)
}

/// The vertex table of a blade: for each level from root to tip, its left
/// then its right vertex.
pub fn blade_vertices(segments: u32) -> (r: Vec<BladeVertex>)
    requires
        blade_vertex_count_spec(segments as nat) <= u32::MAX,
    ensures
        r@.len() == blade_vertex_count_spec(segments as nat),
        forall|k: int| 0 <= k < r@.len() ==> r@[k] == blade_vertex_at(k),
{
    let mut r: Vec<BladeVertex> = Vec::new();
    let mut level: u32 = 0;
    while level <= segments
        invariant
            level <= segments + 1,
            segments < u32::MAX,
            r@.len() == 2 * level,
            forall|k: int| 0 <= k < r@.len() ==> r@[k] == blade_vertex_at(k),
        decreases segments + 1 - level,
    {
        r.push(BladeVertex { level, right: false });
        r.push(BladeVertex { level, right: true });
        proof {
            let n = r@.len() as int;
            assert(r@[n - 2] == blade_vertex_at(n - 2));
            assert(r@[n - 1] == blade_vertex_at(n - 1));
        }
        level = level + 1;
    }
    r
}

/// The index list of a blade: two triangles per segment, all wound the
/// same way.
pub fn blade_indices(segments: u32) -> (r: Vec<u32>)
    requires
        blade_vertex_count_spec(segments as nat) <= u32::MAX,
        blade_index_count_spec(segments as nat) <= usize::MAX,
    ensures
        r@.len() == blade_index_count_spec(segments as nat),
        forall|k: int| 0 <= k < r@.len() ==> r@[k] == blade_index_at(k),
{
    let mut r: Vec<u32> = Vec::new();
    let mut i: u32 = 0;
    while i < segments
        invariant
            i <= segments,
            2 * segments + 2 <= u32::MAX,
            r@.len() == 6 * i,
            forall|k: int| 0 <= k < r@.len() ==> r@[k] == blade_index_at(k),
        decreases segments - i,
    {
        let base: u32 = i * 2;
        r.push(base);
        r.push(base + 2);
        r.push(base + 1);
        r.push(base + 1);
        r.push(base + 2);
        r.push(base + 3);
        proof {
            let s = 6 * i as int;
            assert forall|k: int| s <= k < s + 6 implies r@[k] == blade_index_at(k) by {
                assert(k / 6 == i as int);
                assert(k % 6 == k - s);
            }
        }
        i = i + 1;
    }
    r
}

/// Relies on bytemuck::cast_slice from `u32` to `u8`: the same memory seen
/// as bytes, four per element in the machine's byte order; for this pair of
/// types it never fails.
#[verifier::external_body]
fn index_bytes(indices: &Vec<u32>) -> (r: Vec<u8>)
    ensures
        r@.len() == 4 * indices@.len(),
{
    bytemuck::cast_slice::<u32, u8>(indices.as_slice()).to_vec()
}

/// The blade's index list as the bytes of a GPU index buffer of `u32`
/// entries, in the machine's byte order.
pub fn blade_index_bytes(segments: u32) -> (r: Vec<u8>)
    requires
        blade_vertex_count_spec(segments as nat) <= u32::MAX,
        4 * blade_index_count_spec(segments as nat) <= usize::MAX,
    ensures
        r@.len() == 4 * blade_index_count_spec(segments as nat),
{
    let indices = blade_indices(segments);
    index_bytes(&indices)
}

/// Every index of a blade names one of its vertices: the index list has
/// `6 n` entries, the vertex table `2 (n + 1)`, and each index is below the
/// vertex count.
pub proof fn lemma_blade_indices_in_range(n: nat)
    ensures
        forall|k: int|
            0 <= k < blade_index_count_spec(n) ==> 0 <= #[trigger] blade_index_at(k)
                < blade_vertex_count_spec(n),
{
    assert forall|k: int| 0 <= k < blade_index_count_spec(n) implies 0 <= #[trigger] blade_index_at(
        k,
    ) < blade_vertex_count_spec(n) by {
        assert(0 <= k / 6 < n as int);
    }
}

} // verus!
