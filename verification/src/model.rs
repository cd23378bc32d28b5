//! Mesh data model and the procedural mesh generators.
//!
//! A mesh is an ordered vertex list plus an ordered `u16` index list; the
//! well-formedness invariant is that every index refers to a vertex. The
//! generators fix the discrete structure of each mesh archetype exactly:
//! which vertices exist, in which order, which of them carry the highlight
//! attribute, and which indices are emitted. Vertex coordinates that require
//! floating-point evaluation (the fibonacci lattice) are taken as input,
//! already reduced to `f32` bit patterns.

use vstd::prelude::*;
use crate::bits::{Vec3Bits, F32_ZERO, F32_ONE, F32_NEG_ONE, F32_ONE_EIGHTH, F32_QUARTER,
    F32_THREE_EIGHTHS, F32_HALF, F32_FIVE_EIGHTHS, F32_THREE_QUARTERS, F32_SEVEN_EIGHTHS};

verus! {

/// One GPU vertex: a position, a color, and a highlight scalar, each an
/// `f32` bit pattern.
#[derive(Clone, Copy, PartialEq, Eq, Structural, Debug)]
pub struct Vertex {
    pub position: Vec3Bits,
    pub color: Vec3Bits,
    pub index: u32,
}

/// Geometry for one avatar module: a vertex buffer and a `u16` index buffer.
#[derive(Clone, Debug)]
pub struct Mesh {
    pub vertices: Vec<Vertex>,
    pub indices: Vec<u16>,
}

impl Mesh {
    /// Every index value refers to a vertex of this mesh.
    pub open spec fn well_formed(self) -> bool {
        forall|i: int|
            0 <= i < self.indices@.len() ==> (self.indices@[i] as int) < self.vertices@.len()
    }

    /// Checks the invariant at run time: true exactly when every index
    /// refers to a vertex.
    pub fn is_well_formed(&self) -> (r: bool)
        ensures
            r == self.well_formed(),
    {
        let n = self.vertices.len();
        let mut i: usize = 0;
        while i < self.indices.len()
            invariant
                i <= self.indices@.len(),
                n == self.vertices@.len(),
                forall|j: int| 0 <= j < i ==> (self.indices@[j] as int) < n,
            decreases self.indices@.len() - i,
        {
            if self.indices[i] as usize >= n {
                return false;
            }
            i = i + 1;
        }
        true
    }

    pub fn new(vertices: Vec<Vertex>, indices: Vec<u16>) -> (r: Mesh)
        ensures
            r.vertices == vertices,
            r.indices == indices,
    {
        Mesh { vertices, indices }
    }

    pub fn new_empty() -> (r: Mesh)
        ensures
            r.vertices@.len() == 0,
            r.indices@.len() == 0,
            r.well_formed(),
    {
        let vertices: Vec<Vertex> = Vec::new();
        let indices: Vec<u16> = Vec::new();
        Mesh { vertices, indices }
    }
}

/// One sample of the fibonacci lattice, as the host's floating-point kernel
/// reduced it: the point's position and the shade derived from it (each
/// coordinate mapped from [-1, 1] to [0, 1]).
#[derive(Clone, Copy, PartialEq, Eq, Structural, Debug)]
pub struct LatticePoint {
    pub position: Vec3Bits,
    pub shade: Vec3Bits,
}

/// The highlight attribute of sample `i`: every eleventh sample is marked,
/// all others are not.
pub open spec fn highlight_bits(i: int) -> u32 {
    if i % 11 == 0 {
        F32_ONE
    } else {
        F32_ZERO
    }
}

/// The extra center vertex a fibonacci mesh starts with: at the origin,
/// colored black, unmarked.
pub open spec fn center_vertex() -> Vertex {
    Vertex {
        position: Vec3Bits { x: F32_ZERO, y: F32_ZERO, z: F32_ZERO },
        color: Vec3Bits { x: F32_ZERO, y: F32_ZERO, z: F32_ZERO },
        index: F32_ZERO,
    }
}

/// The vertex emitted for lattice sample `i` of `points`.
pub open spec fn lattice_vertex(points: Seq<LatticePoint>, i: int) -> Vertex {
    Vertex {
        position: points[i].position,
        color: points[i].shade,
        index: highlight_bits(i),
    }
}

/// The fibonacci "sunburst" mesh over the given lattice samples: one center
/// vertex at the origin, one vertex per sample, and one index pair
/// `(0, sample)` per sample, so that the mesh draws as a line list of rays
/// from the center.
pub fn gen_fibonacci_mesh(points: &Vec<LatticePoint>) -> (r: Mesh)
    requires
        points@.len() <= 0xFFFF,
    ensures
        r.vertices@.len() == points@.len() + 1,
        r.vertices@[0] == center_vertex(),
        forall|i: int| 0 <= i < points@.len() ==> r.vertices@[i + 1] == lattice_vertex(points@, i),
        r.indices@.len() == 2 * points@.len(),
        forall|i: int| 0 <= i < points@.len() ==> #[trigger] r.indices@[2 * i] == 0u16,
        forall|i: int| 0 <= i < points@.len() ==> #[trigger] r.indices@[2 * i + 1] == i as u16,
        r.well_formed(),
{
    let mut vertices: Vec<Vertex> = Vec::new();
    let mut indices: Vec<u16> = Vec::new();

    vertices.push(Vertex {
        position: Vec3Bits { x: F32_ZERO, y: F32_ZERO, z: F32_ZERO },
        color: Vec3Bits { x: F32_ZERO, y: F32_ZERO, z: F32_ZERO },
        index: F32_ZERO,
    });

    let mut i: usize = 0;
    while i < points.len()
        invariant
            i <= points@.len(),
            points@.len() <= 0xFFFF,
            vertices@.len() == i + 1,
            vertices@[0] == center_vertex(),
            forall|j: int| 0 <= j < i ==> vertices@[j + 1] == lattice_vertex(points@, j),
            indices@.len() == 2 * i,
            forall|j: int| 0 <= j < i ==> #[trigger] indices@[2 * j] == 0u16,
            forall|j: int| 0 <= j < i ==> #[trigger] indices@[2 * j + 1] == j as u16,
        decreases points@.len() - i,
    {
        let p = points[i];
        let marker: u32 = if i % 11 == 0 {
            F32_ONE
        } else {
            F32_ZERO
        };
        vertices.push(Vertex { position: p.position, color: p.shade, index: marker });
        indices.push(0);
        indices.push(i as u16);
        i = i + 1;
    }

    proof {
        assert forall|k: int| 0 <= k < indices@.len() implies (indices@[k] as int)
            < vertices@.len() by {
            let j = k / 2;
            assert(0 <= j < points@.len());
            if k % 2 == 0 {
                assert(k == 2 * j);
            } else {
                assert(k == 2 * j + 1);
                assert(indices@[k] == j as u16);
            }
        }
    }
    Mesh { vertices, indices }
}

/// The outer shell mesh over the given lattice samples: no center vertex;
/// one vertex per sample and one index pair `(0, sample)` per sample, so
/// every ray is anchored at the first sample.
pub fn gen_outer_mesh(points: &Vec<LatticePoint>) -> (r: Mesh)
    requires
        points@.len() <= 0xFFFF,
    ensures
        r.vertices@.len() == points@.len(),
        forall|i: int| 0 <= i < points@.len() ==> r.vertices@[i] == lattice_vertex(points@, i),
        r.indices@.len() == 2 * points@.len(),
        forall|i: int| 0 <= i < points@.len() ==> #[trigger] r.indices@[2 * i] == 0u16,
        forall|i: int| 0 <= i < points@.len() ==> #[trigger] r.indices@[2 * i + 1] == i as u16,
        r.well_formed(),
{
    let mut vertices: Vec<Vertex> = Vec::new();
    let mut indices: Vec<u16> = Vec::new();

    let mut i: usize = 0;
    while i < points.len()
        invariant
            i <= points@.len(),
            points@.len() <= 0xFFFF,
            vertices@.len() == i,
            forall|j: int| 0 <= j < i ==> vertices@[j] == lattice_vertex(points@, j),
            indices@.len() == 2 * i,
            forall|j: int| 0 <= j < i ==> #[trigger] indices@[2 * j] == 0u16,
            forall|j: int| 0 <= j < i ==> #[trigger] indices@[2 * j + 1] == j as u16,
        decreases points@.len() - i,
    {
        let p = points[i];
        let marker: u32 = if i % 11 == 0 {
            F32_ONE
        } else {
            F32_ZERO
        };
        vertices.push(Vertex { position: p.position, color: p.shade, index: marker });
        indices.push(0);
        indices.push(i as u16);
        i = i + 1;
    }

    proof {
        assert forall|k: int| 0 <= k < indices@.len() implies (indices@[k] as int)
            < vertices@.len() by {
            let j = k / 2;
            assert(0 <= j < points@.len());
            if k % 2 == 0 {
                assert(k == 2 * j);
            } else {
                assert(k == 2 * j + 1);
                assert(indices@[k] == j as u16);
            }
        }
    }
    Mesh { vertices, indices }
}

} // verus!

verus! {

/// The corner coordinate sign pattern of cube corner `i`: bit 0 selects the
/// x sign, bit 1 the y sign, bit 2 the z sign is flipped for the back face.
/// Corners are listed exactly as the generator emits them.
pub open spec fn cube_corner_position(i: int) -> Vec3Bits {
    let x = if i % 2 == 1 { F32_ONE } else { F32_NEG_ONE };
    let y = if i == 2 || i == 3 || i == 6 || i == 7 { F32_ONE } else { F32_NEG_ONE };
    let z = if i < 4 { F32_ONE } else { F32_NEG_ONE };
    Vec3Bits { x, y, z }
}

/// The color of cube corner `i`: each channel is the corner coordinate
/// mapped from [-1, 1] to [0, 1], so it is zero or one exactly.
pub open spec fn cube_corner_color(i: int) -> Vec3Bits {
    let p = cube_corner_position(i);
    Vec3Bits {
        x: if p.x == F32_ONE { F32_ONE } else { F32_ZERO },
        y: if p.y == F32_ONE { F32_ONE } else { F32_ZERO },
        z: if p.z == F32_ONE { F32_ONE } else { F32_ZERO },
    }
}

/// The highlight attribute of cube corner `i`: the corner's rank among the
/// eight corners, as the fraction `i / 8`.
pub open spec fn cube_corner_fraction(i: int) -> u32 {
    if i == 0 { F32_ZERO }
    else if i == 1 { F32_ONE_EIGHTH }
    else if i == 2 { F32_QUARTER }
    else if i == 3 { F32_THREE_EIGHTHS }
    else if i == 4 { F32_HALF }
    else if i == 5 { F32_FIVE_EIGHTHS }
    else if i == 6 { F32_THREE_QUARTERS }
    else { F32_SEVEN_EIGHTHS }
}

/// The vertex emitted for cube corner `i`.
pub open spec fn cube_vertex(i: int) -> Vertex {
    Vertex {
        position: cube_corner_position(i),
        color: cube_corner_color(i),
        index: cube_corner_fraction(i),
    }
}

/// The twelve triangles of the unit cube, two per face, in the fixed order
/// top, bottom, left, right, front, back.
pub open spec fn cube_indices() -> Seq<u16> {
    seq![
        2u16, 6, 7, 2, 3, 7,
        0, 4, 5, 0, 1, 5,
        0, 2, 6, 0, 4, 6,
        1, 3, 7, 1, 5, 7,
        0, 2, 3, 0, 1, 3,
        4, 6, 7, 4, 5, 7,
    ]
}

/// The fixed unit cube: eight corner vertices colored from their own
/// coordinates, and thirty-six indices forming twelve triangles.
pub fn gen_cube_mesh() -> (r: Mesh)
    ensures
        r.vertices@.len() == 8,
        forall|i: int| 0 <= i < 8 ==> r.vertices@[i] == cube_vertex(i),
        r.indices@.len() == 36,
        r.indices@ == cube_indices(),
        r.well_formed(),
{
    let mut indices: Vec<u16> = Vec::new();
    indices.push(2); indices.push(6); indices.push(7);
    indices.push(2); indices.push(3); indices.push(7);
    indices.push(0); indices.push(4); indices.push(5);
    indices.push(0); indices.push(1); indices.push(5);
    indices.push(0); indices.push(2); indices.push(6);
    indices.push(0); indices.push(4); indices.push(6);
    indices.push(1); indices.push(3); indices.push(7);
    indices.push(1); indices.push(5); indices.push(7);
    indices.push(0); indices.push(2); indices.push(3);
    indices.push(0); indices.push(1); indices.push(3);
    indices.push(4); indices.push(6); indices.push(7);
    indices.push(4); indices.push(5); indices.push(7);

    let mut vertices: Vec<Vertex> = Vec::new();
    vertices.push(Vertex {
        position: Vec3Bits { x: F32_NEG_ONE, y: F32_NEG_ONE, z: F32_ONE },
        color: Vec3Bits { x: F32_ZERO, y: F32_ZERO, z: F32_ONE },
        index: F32_ZERO,
    });
    vertices.push(Vertex {
        position: Vec3Bits { x: F32_ONE, y: F32_NEG_ONE, z: F32_ONE },
        color: Vec3Bits { x: F32_ONE, y: F32_ZERO, z: F32_ONE },
        index: F32_ONE_EIGHTH,
    });
    vertices.push(Vertex {
        position: Vec3Bits { x: F32_NEG_ONE, y: F32_ONE, z: F32_ONE },
        color: Vec3Bits { x: F32_ZERO, y: F32_ONE, z: F32_ONE },
        index: F32_QUARTER,
    });
    vertices.push(Vertex {
        position: Vec3Bits { x: F32_ONE, y: F32_ONE, z: F32_ONE },
        color: Vec3Bits { x: F32_ONE, y: F32_ONE, z: F32_ONE },
        index: F32_THREE_EIGHTHS,
    });
    vertices.push(Vertex {
        position: Vec3Bits { x: F32_NEG_ONE, y: F32_NEG_ONE, z: F32_NEG_ONE },
        color: Vec3Bits { x: F32_ZERO, y: F32_ZERO, z: F32_ZERO },
        index: F32_HALF,
    });
    vertices.push(Vertex {
        position: Vec3Bits { x: F32_ONE, y: F32_NEG_ONE, z: F32_NEG_ONE },
        color: Vec3Bits { x: F32_ONE, y: F32_ZERO, z: F32_ZERO },
        index: F32_FIVE_EIGHTHS,
    });
    vertices.push(Vertex {
        position: Vec3Bits { x: F32_NEG_ONE, y: F32_ONE, z: F32_NEG_ONE },
        color: Vec3Bits { x: F32_ZERO, y: F32_ONE, z: F32_ZERO },
        index: F32_THREE_QUARTERS,
    });
    vertices.push(Vertex {
        position: Vec3Bits { x: F32_ONE, y: F32_ONE, z: F32_NEG_ONE },
        color: Vec3Bits { x: F32_ONE, y: F32_ONE, z: F32_ZERO },
        index: F32_SEVEN_EIGHTHS,
    });

    proof {
        assert(indices@ =~= cube_indices());
        assert forall|i: int| 0 <= i < 8 implies vertices@[i] == cube_vertex(i) by {
        }
        assert forall|k: int| 0 <= k < indices@.len() implies (indices@[k] as int)
            < vertices@.len() by {
        }
    }
    Mesh { vertices, indices }
}

} // verus!
