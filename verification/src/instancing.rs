//! Instance planning: the per-instance transforms of one module.
//!
//! `Default` places exactly one instance at the origin with no rotation,
//! whatever count was configured. `Sphere` places one instance per requested
//! count on a fibonacci sphere scaled by the configured radius and moved by
//! the configured offset, each with an independent random yaw; those
//! positions and yaws are floating-point and random work the host's kernel
//! performs, handed in as one placement per instance, and this planner fixes
//! the count, the order, the scale, and which placement each instance gets.

use vstd::prelude::*;
use crate::bits::{Vec3Bits, QuatBits, F32_ZERO, F32_ONE};

verus! {

/// The closed set of instancing policies a module description may select.
/// `Sphere` carries its radius as an `f32` bit pattern.
#[derive(Clone, Copy, PartialEq, Eq, Structural, Debug)]
pub enum InstanceRotationFunction {
    Default,
    Sphere { radius: u32 },
}

/// One planned instance: a position, a rotation quaternion, and a uniform
/// scale, each component an `f32` bit pattern.
#[derive(Clone, Copy, PartialEq, Eq, Structural, Debug)]
pub struct Instance {
    pub position: Vec3Bits,
    pub rotation: QuatBits,
    pub scale: u32,
}

/// One sphere placement the host prepared: the instance's position (lattice
/// point scaled by the radius, moved by the offset) and its random yaw.
#[derive(Clone, Copy, PartialEq, Eq, Structural, Debug)]
pub struct Placement {
    pub position: Vec3Bits,
    pub yaw: QuatBits,
}

/// The single instance the `Default` policy plans: at the origin, unrotated,
/// at the given scale.
pub open spec fn default_instance(scale: u32) -> Instance {
    Instance {
        position: Vec3Bits { x: F32_ZERO, y: F32_ZERO, z: F32_ZERO },
        rotation: QuatBits { x: F32_ZERO, y: F32_ZERO, z: F32_ZERO, w: F32_ONE },
        scale,
    }
}

/// The instance planned from sphere placement `p` at the given scale.
pub open spec fn placed_instance(p: Placement, scale: u32) -> Instance {
    Instance { position: p.position, rotation: p.yaw, scale }
}

/// Plans the instances of one module. `Default` yields exactly one instance
/// at the origin regardless of the requested count; `Sphere` yields one
/// instance per requested count, in placement order.
pub fn generate_instances(
    instance_rotation_function: &InstanceRotationFunction,
    count: usize,
    placements: &Vec<Placement>,
    scale: u32,
) -> (r: Vec<Instance>)
    requires
        instance_rotation_function is Sphere ==> count >= 1,
        instance_rotation_function is Sphere ==> placements@.len() == count,
    ensures
        instance_rotation_function is Default ==> r@ =~= seq![default_instance(scale)],
        instance_rotation_function is Sphere ==> {
            &&& r@.len() == count
            &&& forall|i: int| 0 <= i < count
                ==> r@[i] == placed_instance(#[trigger] placements@[i], scale)
        },
{
    let mut instances: Vec<Instance> = Vec::new();
    match instance_rotation_function {
        InstanceRotationFunction::Default => {
            instances.push(Instance {
                position: Vec3Bits::zero(),
                rotation: QuatBits::identity(),
                scale,
            });
        },
        InstanceRotationFunction::Sphere { .. } => {
            let mut i: usize = 0;
            while i < placements.len()
                invariant
                    i <= placements@.len(),
                    instances@.len() == i,
                    forall|j: int| 0 <= j < i
                        ==> instances@[j] == placed_instance(#[trigger] placements@[j], scale),
                decreases placements@.len() - i,
            {
                let p = placements[i];
                instances.push(Instance { position: p.position, rotation: p.yaw, scale });
                i = i + 1;
            }
        },
    }
    instances
}

} // verus!
