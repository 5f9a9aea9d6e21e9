use procedural_grass::config::{BLADE_SEGMENTS, GROUND_HALF_EXTENT};
use procedural_grass::ground::{ground_indices, ground_vertices, GroundVertex};
use procedural_grass::mesh::{
    blade_index_bytes, blade_indices, blade_vertex_count, blade_vertices, BladeVertex,
};

#[test]
fn blade_mesh_counts_for_configured_segments() {
    assert_eq!(blade_vertex_count(BLADE_SEGMENTS), 14);
    assert_eq!(blade_vertices(BLADE_SEGMENTS).len(), 14);
    assert_eq!(blade_indices(BLADE_SEGMENTS).len(), 36);
}

#[test]
fn blade_mesh_counts_for_many_segment_counts() {
    for n in 0u32..40 {
        let vertices = blade_vertices(n);
        let indices = blade_indices(n);
        assert_eq!(vertices.len() as u32, 2 * (n + 1));
        assert_eq!(blade_vertex_count(n), 2 * (n + 1));
        assert_eq!(indices.len() as u32, 6 * n);
        assert!(indices.iter().all(|&i| i < blade_vertex_count(n)));
    }
}

#[test]
fn blade_mesh_is_deterministic() {
    assert_eq!(blade_indices(9), blade_indices(9));
    assert_eq!(blade_vertices(9), blade_vertices(9));
}

#[test]
fn blade_zero_segments_has_one_level() {
    assert_eq!(
        blade_vertices(0),
        vec![BladeVertex { level: 0, right: false }, BladeVertex { level: 0, right: true }]
    );
    assert!(blade_indices(0).is_empty());
}

#[test]
fn blade_indices_wind_each_segment() {
    let indices = blade_indices(2);
    assert_eq!(indices, vec![0, 2, 1, 1, 2, 3, 2, 4, 3, 3, 4, 5]);
}

#[test]
fn blade_vertices_go_left_then_right_from_root() {
    let v = blade_vertices(2);
    assert_eq!(v[0], BladeVertex { level: 0, right: false });
    assert_eq!(v[1], BladeVertex { level: 0, right: true });
    assert_eq!(v[4], BladeVertex { level: 2, right: false });
    assert_eq!(v[5], BladeVertex { level: 2, right: true });
}

#[test]
fn blade_index_bytes_are_the_indices() {
    let bytes = blade_index_bytes(BLADE_SEGMENTS);
    let indices = blade_indices(BLADE_SEGMENTS);
    assert_eq!(bytes.len(), 4 * 36);
    let decoded: Vec<u32> = bytes
        .chunks(4)
        .map(|c| u32::from_ne_bytes([c[0], c[1], c[2], c[3]]))
        .collect();
    assert_eq!(decoded, indices);
    assert_ne!(bytes[4..8], [0u8, 0, 0, 0]);
}

#[test]
fn ground_quad_tables() {
    let h = GROUND_HALF_EXTENT;
    assert_eq!(
        ground_vertices(),
        vec![
            GroundVertex { x: -h, y: 0, z: -h },
            GroundVertex { x: h, y: 0, z: -h },
            GroundVertex { x: h, y: 0, z: h },
            GroundVertex { x: -h, y: 0, z: h },
        ]
    );
    assert_eq!(ground_indices(), vec![0, 2, 1, 0, 3, 2]);
}

#[test]
fn ground_triangles_face_up() {
    let v = ground_vertices();
    let idx = ground_indices();
    for t in idx.chunks(3) {
        let (a, b, c) = (v[t[0] as usize], v[t[1] as usize], v[t[2] as usize]);
        let ny = (b.z - a.z) as i64 * (c.x - a.x) as i64 - (b.x - a.x) as i64 * (c.z - a.z) as i64;
        assert!(ny > 0);
    }
}
