use avatar_pipeline::avatar::Avatar;
use avatar_pipeline::avatar_generator::{build_avatar, compile_module, get_primitive_topology,
    reload_avatar, resolved_mesh_render_type, resolved_shader_file, AvatarData, AvatarModuleData,
    BuildError, InstanceData, MeshData, MeshGenFunction, MeshRenderType, MeshSource,
    ModuleHandles, ModuleInputs, PrimitiveTopology, ShaderData};
use avatar_pipeline::bits::Vec3Bits;
use avatar_pipeline::coloring::MeshColorFunction;
use avatar_pipeline::instancing::InstanceRotationFunction;
use avatar_pipeline::mesh_file::MeshError;
use avatar_pipeline::model::LatticePoint;

fn bits3(x: f32, y: f32, z: f32) -> Vec3Bits {
    Vec3Bits { x: x.to_bits(), y: y.to_bits(), z: z.to_bits() }
}

fn cube_module_data(name: &str) -> AvatarModuleData {
    AvatarModuleData {
        module_name: name.to_string(),
        visible: true,
        shader_data: ShaderData { shader_uniform: None, source_file: None },
        mesh_generation: MeshData {
            mesh_gen_function: Some(MeshGenFunction::Cube),
            mesh_render_type: Some(MeshRenderType::Triangles),
            sample: None,
            mesh_color_function: Some(MeshColorFunction::White),
            size: None,
        },
        instancing: InstanceData {
            count: Some(1),
            position_x: None,
            position_y: None,
            position_z: None,
            scale: None,
            instance_rotation_function: None,
        },
    }
}

fn cube_inputs() -> ModuleInputs {
    ModuleInputs {
        mesh_source: MeshSource::Cube,
        shades: None,
        placements: Vec::new(),
        handles: ModuleHandles {
            render_pipeline: 1,
            vertex_buffer: 2,
            index_buffer: 3,
            instance_buffer: 4,
        },
    }
}

fn lattice(samples: u32) -> Vec<LatticePoint> {
    let phi = std::f32::consts::PI * (3.0 - f32::sqrt(5.0));
    let mut points = Vec::new();
    for i in 0..samples {
        let y = 1.0 - (i as f32 / (samples as f32 - 1.0)) * 2.0;
        let radius = f32::sqrt(1.0 - y * y);
        let theta = phi * i as f32;
        let x = f32::cos(theta) * radius;
        let z = f32::sin(theta) * radius;
        points.push(LatticePoint {
            position: bits3(x, y, z),
            shade: bits3((x + 1.0) / 2.0, (y + 1.0) / 2.0, (z + 1.0) / 2.0),
        });
    }
    points
}

/// A module left entirely to its defaults: fibonacci with 25 samples,
/// rainbow coloring, one default instance.
fn default_module_data(name: &str) -> AvatarModuleData {
    AvatarModuleData {
        module_name: name.to_string(),
        visible: true,
        shader_data: ShaderData { shader_uniform: None, source_file: None },
        mesh_generation: MeshData {
            mesh_gen_function: None,
            mesh_render_type: None,
            sample: None,
            mesh_color_function: None,
            size: None,
        },
        instancing: InstanceData {
            count: None,
            position_x: None,
            position_y: None,
            position_z: None,
            scale: None,
            instance_rotation_function: None,
        },
    }
}

fn default_module_inputs() -> ModuleInputs {
    let points = lattice(25);
    let mut shades = vec![bits3(0.0, 0.0, 0.0)];
    for p in &points {
        shades.push(p.shade);
    }
    ModuleInputs {
        mesh_source: MeshSource::Lattice(points),
        shades: Some(shades),
        placements: Vec::new(),
        handles: ModuleHandles {
            render_pipeline: 10,
            vertex_buffer: 11,
            index_buffer: 12,
            instance_buffer: 13,
        },
    }
}

#[test]
fn cube_module_compiles_to_36_indices_one_instance() {
    let module = compile_module(cube_module_data("cube"), cube_inputs()).unwrap();
    assert_eq!(module.module_name, "cube");
    assert!(module.visible);
    assert_eq!(module.index_count, 36);
    assert_eq!(module.instance_count, 1);
    assert_eq!(module.mesh.vertices.len(), 8);
    for v in &module.mesh.vertices {
        assert_eq!(v.color, bits3(1.0, 1.0, 1.0));
    }
    assert_eq!(module.render_pipeline, 1);
    assert_eq!(module.vertex_buffer, 2);
    assert_eq!(module.index_buffer, 3);
    assert_eq!(module.instance_buffer, 4);
}

#[test]
fn defaults_resolve_as_documented() {
    let module = compile_module(default_module_data("fib"), default_module_inputs()).unwrap();
    // Default generator is Fibonacci with 25 samples: 26 vertices, 50
    // indices; default instancing is one instance.
    assert_eq!(module.mesh.vertices.len(), 26);
    assert_eq!(module.index_count, 50);
    assert_eq!(module.instance_count, 1);
    // Default coloring is Rainbow: the center override is applied.
    assert_eq!(module.mesh.vertices[0].color, bits3(1.0, 0.0, 1.0));
    let data = default_module_data("fib");
    assert_eq!(resolved_shader_file(&data.shader_data), "shader.wgsl");
    // The default render type is Lines, so the pipeline is keyed by a line
    // list.
    assert_eq!(
        get_primitive_topology(resolved_mesh_render_type(&data.mesh_generation)),
        PrimitiveTopology::LineList
    );
}

#[test]
fn mismatched_inputs_are_a_config_error() {
    // A cube description with lattice geometry does not compile.
    let result = compile_module(
        cube_module_data("cube"),
        ModuleInputs { mesh_source: MeshSource::Lattice(lattice(25)), ..cube_inputs() },
    );
    assert!(matches!(result, Err(BuildError::Config)));

    // A lattice of the wrong sample count does not compile either.
    let mut inputs = default_module_inputs();
    inputs.mesh_source = MeshSource::Lattice(lattice(24));
    let result = compile_module(default_module_data("fib"), inputs);
    assert!(matches!(result, Err(BuildError::Config)));
}

#[test]
fn build_avatar_compiles_in_description_order() {
    let data = AvatarData {
        avatar_module_data: vec![cube_module_data("first"), default_module_data("second")],
    };
    let avatar = build_avatar(data, vec![cube_inputs(), default_module_inputs()]).unwrap();
    assert_eq!(avatar.avatar_modules.len(), 2);
    assert_eq!(avatar.avatar_modules[0].module_name, "first");
    assert_eq!(avatar.avatar_modules[1].module_name, "second");
}

#[test]
fn build_avatar_is_all_or_nothing() {
    let data = AvatarData {
        avatar_module_data: vec![cube_module_data("good"), cube_module_data("bad")],
    };
    // The second module's inputs disagree with its description.
    let bad_inputs = ModuleInputs {
        mesh_source: MeshSource::Lattice(lattice(5)),
        ..cube_inputs()
    };
    let result = build_avatar(data, vec![cube_inputs(), bad_inputs]);
    assert!(matches!(result, Err(BuildError::Config)));
}

#[test]
fn failed_reload_keeps_the_previous_avatar() {
    let data = AvatarData { avatar_module_data: vec![cube_module_data("keep")] };
    let mut avatar = build_avatar(data, vec![cube_inputs()]).unwrap();

    // The description failed to parse: the host hands in the error.
    let outcome = reload_avatar(
        &mut avatar,
        Err(BuildError::Geometry(MeshError::Malformed)),
    );
    assert!(matches!(outcome, Err(BuildError::Geometry(MeshError::Malformed))));
    assert_eq!(avatar.avatar_modules.len(), 1);
    assert_eq!(avatar.avatar_modules[0].module_name, "keep");

    // A reload whose inputs disagree with the description fails too, and the
    // module list is untouched.
    let data = AvatarData { avatar_module_data: vec![cube_module_data("next")] };
    let bad_inputs = ModuleInputs {
        mesh_source: MeshSource::Lattice(lattice(3)),
        ..cube_inputs()
    };
    let outcome = reload_avatar(&mut avatar, Ok((data, vec![bad_inputs])));
    assert!(matches!(outcome, Err(BuildError::Config)));
    assert_eq!(avatar.avatar_modules.len(), 1);
    assert_eq!(avatar.avatar_modules[0].module_name, "keep");
}

#[test]
fn successful_reload_replaces_the_avatar_wholesale() {
    let mut avatar = Avatar::new_empty();
    let data = AvatarData {
        avatar_module_data: vec![cube_module_data("a"), cube_module_data("b")],
    };
    let outcome = reload_avatar(&mut avatar, Ok((data, vec![cube_inputs(), cube_inputs()])));
    assert!(outcome.is_ok());
    assert_eq!(avatar.avatar_modules.len(), 2);
    assert_eq!(avatar.avatar_modules[0].module_name, "a");
    assert_eq!(avatar.avatar_modules[1].module_name, "b");
}

#[test]
fn render_types_map_to_topologies() {
    assert_eq!(get_primitive_topology(MeshRenderType::Lines), PrimitiveTopology::LineList);
    assert_eq!(
        get_primitive_topology(MeshRenderType::Triangles),
        PrimitiveTopology::TriangleList
    );
    assert_eq!(get_primitive_topology(MeshRenderType::Points), PrimitiveTopology::PointList);
}

#[test]
fn sphere_instancing_compiles_count_instances() {
    let mut data = cube_module_data("spheres");
    data.instancing.count = Some(4);
    data.instancing.instance_rotation_function =
        Some(InstanceRotationFunction::Sphere { radius: 2.0f32.to_bits() });
    let mut inputs = cube_inputs();
    inputs.placements = (0..4)
        .map(|i| avatar_pipeline::instancing::Placement {
            position: bits3(i as f32, 0.0, 0.0),
            yaw: avatar_pipeline::bits::QuatBits {
                x: 0.0f32.to_bits(),
                y: 0.0f32.to_bits(),
                z: 0.0f32.to_bits(),
                w: 1.0f32.to_bits(),
            },
        })
        .collect();
    let module = compile_module(data, inputs).unwrap();
    assert_eq!(module.instance_count, 4);
    assert_eq!(module.instances.len(), 4);
    assert_eq!(module.instances[2].position, bits3(2.0, 0.0, 0.0));
}
