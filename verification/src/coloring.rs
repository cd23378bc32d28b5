//! Vertex coloring passes.
//!
//! Coloring always runs after generation and rewrites only the color channel
//! of each vertex; positions, highlight attributes and indices are untouched.
//! `Black` and `White` recolor every vertex to a fixed constant. `Rainbow`
//! recolors every vertex from its own position (each channel mapped from
//! [-1, 1] to [0, 1] by the host's floating-point kernel, handed in as one
//! shade per vertex) and then forces the first vertex — the center vertex of
//! a fibonacci mesh — to a fixed distinct color.

use vstd::prelude::*;
use crate::bits::{Vec3Bits, F32_ZERO, F32_ONE};
use crate::model::{Mesh, Vertex};

verus! {

/// The closed set of coloring passes a module description may select.
#[derive(Clone, Copy, PartialEq, Eq, Structural, Debug)]
pub enum MeshColorFunction {
    Rainbow,
    Black,
    White,
}

/// The constant color `Black` paints: `[0, 0, 0]`.
pub open spec fn black_color() -> Vec3Bits {
    Vec3Bits { x: F32_ZERO, y: F32_ZERO, z: F32_ZERO }
}

/// The constant color `White` paints: `[1, 1, 1]`.
pub open spec fn white_color() -> Vec3Bits {
    Vec3Bits { x: F32_ONE, y: F32_ONE, z: F32_ONE }
}

/// The fixed color the rainbow pass forces onto the center vertex:
/// `[1, 0, 1]`.
pub open spec fn rainbow_center_color() -> Vec3Bits {
    Vec3Bits { x: F32_ONE, y: F32_ZERO, z: F32_ONE }
}

/// `v` with its color channel replaced by `c` and everything else kept.
pub open spec fn with_color(v: Vertex, c: Vec3Bits) -> Vertex {
    Vertex { position: v.position, color: c, index: v.index }
}

/// Paints every vertex of the mesh in the one given color; positions,
/// highlight attributes and indices are unchanged.
pub fn color_mesh_solid_color(mesh: &mut Mesh, color: Vec3Bits)
    ensures
        final(mesh).vertices@.len() == old(mesh).vertices@.len(),
        forall|i: int| 0 <= i < old(mesh).vertices@.len()
            ==> final(mesh).vertices@[i] == with_color(#[trigger] old(mesh).vertices@[i], color),
        final(mesh).indices == old(mesh).indices,
{
    let n = mesh.vertices.len();
    let mut i: usize = 0;
    while i < n
        invariant
            n == mesh.vertices@.len(),
            mesh.vertices@.len() == old(mesh).vertices@.len(),
            i <= n,
            forall|j: int| 0 <= j < i
                ==> mesh.vertices@[j] == with_color(#[trigger] old(mesh).vertices@[j], color),
            forall|j: int| i <= j < n ==> mesh.vertices@[j] == old(mesh).vertices@[j],
            mesh.indices == old(mesh).indices,
        decreases n - i,
    {
        let v = mesh.vertices[i];
        mesh.vertices.set(i, Vertex { position: v.position, color, index: v.index });
        i = i + 1;
    }
}

/// Paints vertex `i` in `shades[i]` — one shade per vertex, derived from the
/// vertex's own position by the host — then forces the first vertex to the
/// fixed center color. Positions, highlight attributes and indices are
/// unchanged.
pub fn color_mesh_rainbow(mesh: &mut Mesh, shades: &Vec<Vec3Bits>)
    requires
        shades@.len() == old(mesh).vertices@.len(),
        old(mesh).vertices@.len() >= 1,
    ensures
        final(mesh).vertices@.len() == old(mesh).vertices@.len(),
        final(mesh).vertices@[0] == with_color(old(mesh).vertices@[0], rainbow_center_color()),
        forall|i: int| 1 <= i < old(mesh).vertices@.len()
            ==> final(mesh).vertices@[i]
                == with_color(#[trigger] old(mesh).vertices@[i], shades@[i]),
        final(mesh).indices == old(mesh).indices,
{
    let n = mesh.vertices.len();
    let mut i: usize = 0;
    while i < n
        invariant
            n == mesh.vertices@.len(),
            mesh.vertices@.len() == old(mesh).vertices@.len(),
            shades@.len() == old(mesh).vertices@.len(),
            i <= n,
            forall|j: int| 0 <= j < i
                ==> mesh.vertices@[j] == with_color(#[trigger] old(mesh).vertices@[j], shades@[j]),
            forall|j: int| i <= j < n ==> mesh.vertices@[j] == old(mesh).vertices@[j],
            mesh.indices == old(mesh).indices,
        decreases n - i,
    {
        let v = mesh.vertices[i];
        let s = shades[i];
        mesh.vertices.set(i, Vertex { position: v.position, color: s, index: v.index });
        i = i + 1;
    }
    let first = mesh.vertices[0];
    mesh.vertices.set(0, Vertex {
        position: first.position,
        color: Vec3Bits { x: F32_ONE, y: F32_ZERO, z: F32_ONE },
        index: first.index,
    });
}

/// Runs the selected coloring pass. `Rainbow` consumes the per-vertex shades
/// the host derived from the vertex positions; `Black` and `White` ignore
/// them.
pub fn color_mesh(
    color_function: &MeshColorFunction,
    mesh: &mut Mesh,
    shades: Option<&Vec<Vec3Bits>>,
)
    requires
        color_function is Rainbow ==> shades is Some
            && shades->0@.len() == old(mesh).vertices@.len()
            && old(mesh).vertices@.len() >= 1,
    ensures
        final(mesh).vertices@.len() == old(mesh).vertices@.len(),
        final(mesh).indices == old(mesh).indices,
        color_function is Black ==> forall|i: int| 0 <= i < old(mesh).vertices@.len()
            ==> final(mesh).vertices@[i]
                == with_color(#[trigger] old(mesh).vertices@[i], black_color()),
        color_function is White ==> forall|i: int| 0 <= i < old(mesh).vertices@.len()
            ==> final(mesh).vertices@[i]
                == with_color(#[trigger] old(mesh).vertices@[i], white_color()),
        color_function is Rainbow ==> {
            &&& final(mesh).vertices@[0]
                == with_color(old(mesh).vertices@[0], rainbow_center_color())
            &&& forall|i: int| 1 <= i < old(mesh).vertices@.len()
                ==> final(mesh).vertices@[i]
                    == with_color(#[trigger] old(mesh).vertices@[i], shades->0@[i])
        },
{
    match color_function {
        MeshColorFunction::Rainbow => {
            match shades {
                Some(s) => color_mesh_rainbow(mesh, s),
                None => unreached(),
            }
        },
        MeshColorFunction::Black => {
            color_mesh_solid_color(mesh, Vec3Bits { x: F32_ZERO, y: F32_ZERO, z: F32_ZERO });
        },
        MeshColorFunction::White => {
            color_mesh_solid_color(mesh, Vec3Bits { x: F32_ONE, y: F32_ONE, z: F32_ONE });
        },
    }
}

} // verus!
