use avatar_pipeline::bits::Vec3Bits;
use avatar_pipeline::model::{gen_cube_mesh, gen_fibonacci_mesh, gen_outer_mesh, LatticePoint,
    Mesh, Vertex};

fn bits3(x: f32, y: f32, z: f32) -> Vec3Bits {
    Vec3Bits { x: x.to_bits(), y: y.to_bits(), z: z.to_bits() }
}

/// The fibonacci lattice as the host kernel computes it: position and the
/// shade mapped from [-1, 1] to [0, 1] per channel.
fn lattice(samples: u32) -> Vec<LatticePoint> {
    let phi = std::f32::consts::PI * (3.0 - f32::sqrt(5.0));
    let mut points = Vec::new();
    for i in 0..samples {
        let y = 1.0 - (i as f32 / (samples as f32 - 1.0)) * 2.0;
        let radius = f32::sqrt(1.0 - y * y);
        let theta = phi * i as f32;
        let x = f32::cos(theta) * radius;
        let z = f32::sin(theta) * radius;
        points.push(LatticePoint {
            position: bits3(x, y, z),
            shade: bits3((x + 1.0) / 2.0, (y + 1.0) / 2.0, (z + 1.0) / 2.0),
        });
    }
    points
}

fn assert_well_formed(mesh: &Mesh) {
    for &ix in &mesh.indices {
        assert!((ix as usize) < mesh.vertices.len());
    }
}

#[test]
fn fibonacci_counts() {
    // n >= 1 gives n + 1 vertices and 2n indices, center first in each pair.
    for n in [1u32, 2, 11, 25, 50] {
        let points = lattice(n);
        let mesh = gen_fibonacci_mesh(&points);
        assert_eq!(mesh.vertices.len(), n as usize + 1);
        assert_eq!(mesh.indices.len(), 2 * n as usize);
        for i in 0..n as usize {
            assert_eq!(mesh.indices[2 * i], 0, "center leads pair {}", i);
            assert_eq!(mesh.indices[2 * i + 1], i as u16);
        }
        assert_well_formed(&mesh);
    }
}

#[test]
fn fibonacci_center_vertex() {
    let mesh = gen_fibonacci_mesh(&lattice(25));
    let center = mesh.vertices[0];
    assert_eq!(center.position, bits3(0.0, 0.0, 0.0));
    assert_eq!(center.color, bits3(0.0, 0.0, 0.0));
    assert_eq!(center.index, 0.0f32.to_bits());
}

#[test]
fn fibonacci_vertices_follow_lattice() {
    let points = lattice(25);
    let mesh = gen_fibonacci_mesh(&points);
    for (i, p) in points.iter().enumerate() {
        let v = mesh.vertices[i + 1];
        assert_eq!(v.position, p.position);
        assert_eq!(v.color, p.shade);
        let expected = if i % 11 == 0 { 1.0f32 } else { 0.0f32 };
        assert_eq!(v.index, expected.to_bits(), "highlight of sample {}", i);
    }
}

#[test]
fn outer_mesh_has_no_center_vertex() {
    let points = lattice(50);
    let mesh = gen_outer_mesh(&points);
    assert_eq!(mesh.vertices.len(), 50);
    assert_eq!(mesh.indices.len(), 100);
    assert_eq!(mesh.vertices[0].position, points[0].position);
    for i in 0..50 {
        assert_eq!(mesh.indices[2 * i], 0);
        assert_eq!(mesh.indices[2 * i + 1], i as u16);
    }
    assert_well_formed(&mesh);
}

#[test]
fn cube_mesh_shape() {
    let mesh = gen_cube_mesh();
    assert_eq!(mesh.vertices.len(), 8);
    assert_eq!(mesh.indices.len(), 36);
    let expected_indices: Vec<u16> = vec![
        2, 6, 7, 2, 3, 7, 0, 4, 5, 0, 1, 5, 0, 2, 6, 0, 4, 6, 1, 3, 7, 1, 5, 7, 0, 2, 3, 0, 1,
        3, 4, 6, 7, 4, 5, 7,
    ];
    assert_eq!(mesh.indices, expected_indices);
    assert_well_formed(&mesh);
}

#[test]
fn cube_mesh_vertices() {
    let mesh = gen_cube_mesh();
    let corners: [(f32, f32, f32); 8] = [
        (-1.0, -1.0, 1.0),
        (1.0, -1.0, 1.0),
        (-1.0, 1.0, 1.0),
        (1.0, 1.0, 1.0),
        (-1.0, -1.0, -1.0),
        (1.0, -1.0, -1.0),
        (-1.0, 1.0, -1.0),
        (1.0, 1.0, -1.0),
    ];
    for (i, &(x, y, z)) in corners.iter().enumerate() {
        let v: Vertex = mesh.vertices[i];
        assert_eq!(v.position, bits3(x, y, z), "corner {}", i);
        assert_eq!(
            v.color,
            bits3((x + 1.0) / 2.0, (y + 1.0) / 2.0, (z + 1.0) / 2.0),
            "corner color {}",
            i
        );
        assert_eq!(v.index, (i as f32 / 8.0).to_bits(), "corner fraction {}", i);
    }
}

#[test]
fn empty_mesh() {
    let mesh = Mesh::new_empty();
    assert!(mesh.vertices.is_empty());
    assert!(mesh.indices.is_empty());
    assert!(mesh.is_well_formed());
}

#[test]
fn well_formed_check_rejects_out_of_range() {
    let mesh = gen_fibonacci_mesh(&lattice(3));
    assert!(mesh.is_well_formed());
    let bad = Mesh::new(mesh.vertices, vec![0, 4]);
    assert!(!bad.is_well_formed());
}
