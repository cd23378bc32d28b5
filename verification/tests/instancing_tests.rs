use avatar_pipeline::bits::{QuatBits, Vec3Bits};
use avatar_pipeline::instancing::{generate_instances, InstanceRotationFunction, Placement};

fn bits3(x: f32, y: f32, z: f32) -> Vec3Bits {
    Vec3Bits { x: x.to_bits(), y: y.to_bits(), z: z.to_bits() }
}

fn yaw_quat(turns: f32) -> QuatBits {
    // A yaw about the y axis, as the host's kernel would build it.
    let half = turns * std::f32::consts::PI;
    QuatBits {
        x: 0.0f32.to_bits(),
        y: half.sin().to_bits(),
        z: 0.0f32.to_bits(),
        w: half.cos().to_bits(),
    }
}

/// The fibonacci lattice positions, scaled and offset as the host's kernel
/// computes sphere placements.
fn sphere_placements(count: u32, radius: f32, offset: (f32, f32, f32)) -> Vec<Placement> {
    let phi = std::f32::consts::PI * (3.0 - f32::sqrt(5.0));
    let mut placements = Vec::new();
    for i in 0..count {
        let y = 1.0 - (i as f32 / (count as f32 - 1.0)) * 2.0;
        let r = f32::sqrt(1.0 - y * y);
        let theta = phi * i as f32;
        let x = f32::cos(theta) * r;
        let z = f32::sin(theta) * r;
        placements.push(Placement {
            position: bits3(
                x * radius + offset.0,
                y * radius + offset.1,
                z * radius + offset.2,
            ),
            yaw: yaw_quat(i as f32 * 0.13),
        });
    }
    placements
}

#[test]
fn default_plans_one_instance_at_origin() {
    // Whatever count is configured, Default plans exactly one instance at
    // the origin with no rotation.
    for count in [0usize, 1, 7, 100] {
        let scale = 2.5f32.to_bits();
        let instances =
            generate_instances(&InstanceRotationFunction::Default, count, &Vec::new(), scale);
        assert_eq!(instances.len(), 1);
        assert_eq!(instances[0].position, bits3(0.0, 0.0, 0.0));
        assert_eq!(
            instances[0].rotation,
            QuatBits {
                x: 0.0f32.to_bits(),
                y: 0.0f32.to_bits(),
                z: 0.0f32.to_bits(),
                w: 1.0f32.to_bits(),
            }
        );
        assert_eq!(instances[0].scale, scale);
    }
}

#[test]
fn sphere_plans_one_instance_per_count() {
    let placements = sphere_placements(12, 3.0, (0.5, 0.0, -0.5));
    let scale = 1.0f32.to_bits();
    let instances = generate_instances(
        &InstanceRotationFunction::Sphere { radius: 3.0f32.to_bits() },
        12,
        &placements,
        scale,
    );
    assert_eq!(instances.len(), 12);
    for (inst, p) in instances.iter().zip(placements.iter()) {
        assert_eq!(inst.position, p.position);
        assert_eq!(inst.rotation, p.yaw);
        assert_eq!(inst.scale, scale);
    }
}

#[test]
fn sphere_radius_zero_degenerates_to_offset() {
    // With radius 0 every placement collapses onto the offset (up to
    // floating-point tolerance), so every planned instance sits there.
    let offset = (1.5f32, -2.0f32, 0.25f32);
    let placements = sphere_placements(9, 0.0, offset);
    let instances = generate_instances(
        &InstanceRotationFunction::Sphere { radius: 0.0f32.to_bits() },
        9,
        &placements,
        1.0f32.to_bits(),
    );
    assert_eq!(instances.len(), 9);
    for inst in &instances {
        let x = f32::from_bits(inst.position.x);
        let y = f32::from_bits(inst.position.y);
        let z = f32::from_bits(inst.position.z);
        assert!((x - offset.0).abs() < 1e-6, "x = {}", x);
        assert!((y - offset.1).abs() < 1e-6, "y = {}", y);
        assert!((z - offset.2).abs() < 1e-6, "z = {}", z);
    }
}
