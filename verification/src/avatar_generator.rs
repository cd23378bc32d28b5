//! Building an avatar from its declarative description.
//!
//! The description is the already-deserialized configuration: per module a
//! name, a visibility flag, shader data, mesh generation data and instancing
//! data, with every optional field defaulting as documented. The host shell
//! prepares, per module, the inputs that need the outside world — the
//! fibonacci lattice and rainbow shades (floating point), sphere placements
//! (floating point and randomness), a loaded mesh (file bytes), and the GPU
//! resource handles. Compiling checks that the prepared inputs agree with
//! the description and fixes the compiled module exactly; building compiles
//! every module in description order, all or nothing.

use vstd::prelude::*;
use crate::avatar::{Avatar, AvatarModule};
use crate::bits::{Vec3Bits, F32_ZERO, F32_ONE};
use crate::coloring::{MeshColorFunction, black_color, white_color, rainbow_center_color,
    with_color, color_mesh};
use crate::instancing::{Instance, InstanceRotationFunction, Placement, default_instance,
    placed_instance, generate_instances};
use crate::mesh_file::MeshError;
use crate::model::{Mesh, Vertex, LatticePoint, center_vertex, lattice_vertex, cube_vertex,
    cube_indices, gen_fibonacci_mesh, gen_cube_mesh};

verus! {

/// The full avatar description: one entry per module, in draw order.
pub struct AvatarData {
    pub avatar_module_data: Vec<AvatarModuleData>,
}

/// One module's declarative description.
pub struct AvatarModuleData {
    pub module_name: String,
    pub visible: bool,
    pub shader_data: ShaderData,
    pub mesh_generation: MeshData,
    pub instancing: InstanceData,
}

/// The module's shader selection: the uniforms it asks for and the source
/// file to load, both optional.
pub struct ShaderData {
    pub shader_uniform: Option<Vec<String>>,
    pub source_file: Option<String>,
}

/// The module's mesh generation selection. `size` is an `f32` bit pattern.
pub struct MeshData {
    pub mesh_gen_function: Option<MeshGenFunction>,
    pub mesh_render_type: Option<MeshRenderType>,
    pub sample: Option<usize>,
    pub mesh_color_function: Option<MeshColorFunction>,
    pub size: Option<u32>,
}

/// The module's instancing selection. Positions and scale are `f32` bit
/// patterns.
pub struct InstanceData {
    pub count: Option<usize>,
    pub position_x: Option<u32>,
    pub position_y: Option<u32>,
    pub position_z: Option<u32>,
    pub scale: Option<u32>,
    pub instance_rotation_function: Option<InstanceRotationFunction>,
}

/// The closed set of shared uniforms a shader may ask for.
#[derive(Clone, Copy, PartialEq, Eq, Structural, Debug)]
pub enum ShaderUniforms {
    Default,
    Audio,
    Time,
}

/// The closed set of mesh generators a description may select.
#[derive(PartialEq, Eq, Debug)]
pub enum MeshGenFunction {
    Fibonacci,
    Cube,
    Loaded { file: String },
}

/// The closed set of primitive interpretations of a mesh.
#[derive(Clone, Copy, PartialEq, Eq, Structural, Debug)]
pub enum MeshRenderType {
    Lines,
    Triangles,
    Points,
}

/// The primitive topology a pipeline is keyed by.
#[derive(Clone, Copy, PartialEq, Eq, Structural, Debug)]
pub enum PrimitiveTopology {
    LineList,
    TriangleList,
    PointList,
}

/// Maps a render type to its primitive topology: lines to a line list,
/// triangles to a triangle list, points to a point list.
pub fn get_primitive_topology(render_type: MeshRenderType) -> (r: PrimitiveTopology)
    ensures
        r is LineList <==> render_type is Lines,
        r is TriangleList <==> render_type is Triangles,
        r is PointList <==> render_type is Points,
{
    match render_type {
        MeshRenderType::Lines => PrimitiveTopology::LineList,
        MeshRenderType::Triangles => PrimitiveTopology::TriangleList,
        MeshRenderType::Points => PrimitiveTopology::PointList,
    }
}

// ---------------------------------------------------------------------------
// Defaults for unset optional fields.

/// The generator the description selects; unset defaults to `Fibonacci`.
pub open spec fn resolved_gen(md: MeshData) -> MeshGenFunction {
    match md.mesh_gen_function {
        Some(g) => g,
        None => MeshGenFunction::Fibonacci,
    }
}

/// The fibonacci sample count; unset defaults to 25.
pub open spec fn resolved_sample(md: MeshData) -> int {
    match md.sample {
        Some(n) => n as int,
        None => 25,
    }
}

/// The render type; unset defaults to `Lines`.
pub open spec fn resolved_render_type(md: MeshData) -> MeshRenderType {
    match md.mesh_render_type {
        Some(t) => t,
        None => MeshRenderType::Lines,
    }
}

/// The coloring pass; unset defaults to `Rainbow`.
pub open spec fn resolved_color(md: MeshData) -> MeshColorFunction {
    match md.mesh_color_function {
        Some(c) => c,
        None => MeshColorFunction::Rainbow,
    }
}

/// The instance count; unset defaults to 1.
pub open spec fn resolved_count(id: InstanceData) -> int {
    match id.count {
        Some(n) => n as int,
        None => 1,
    }
}

/// The instance scale; unset defaults to 1.0.
pub open spec fn resolved_scale(id: InstanceData) -> u32 {
    match id.scale {
        Some(s) => s,
        None => F32_ONE,
    }
}

/// The instancing policy; unset defaults to `Default`.
pub open spec fn resolved_rotation(id: InstanceData) -> InstanceRotationFunction {
    match id.instance_rotation_function {
        Some(f) => f,
        None => InstanceRotationFunction::Default,
    }
}

/// The sphere offset; each unset coordinate defaults to 0.0.
pub open spec fn resolved_offset(id: InstanceData) -> Vec3Bits {
    Vec3Bits {
        x: match id.position_x { Some(v) => v, None => F32_ZERO },
        y: match id.position_y { Some(v) => v, None => F32_ZERO },
        z: match id.position_z { Some(v) => v, None => F32_ZERO },
    }
}

/// The fibonacci sample count the description asks for (default 25).
pub fn resolved_sample_count(md: &MeshData) -> (r: usize)
    ensures
        r == resolved_sample(*md),
{
    match md.sample {
        Some(n) => n,
        None => 25,
    }
}

/// The render type the description asks for (default `Lines`).
pub fn resolved_mesh_render_type(md: &MeshData) -> (r: MeshRenderType)
    ensures
        r == resolved_render_type(*md),
{
    match md.mesh_render_type {
        Some(t) => t,
        None => MeshRenderType::Lines,
    }
}

/// The coloring pass the description asks for (default `Rainbow`).
pub fn resolved_color_function(md: &MeshData) -> (r: MeshColorFunction)
    ensures
        r == resolved_color(*md),
{
    match md.mesh_color_function {
        Some(c) => c,
        None => MeshColorFunction::Rainbow,
    }
}

/// The instancing policy the description asks for (default `Default`).
pub fn resolved_rotation_function(id: &InstanceData) -> (r: InstanceRotationFunction)
    ensures
        r == resolved_rotation(*id),
{
    match id.instance_rotation_function {
        Some(f) => f,
        None => InstanceRotationFunction::Default,
    }
}

/// The instance count the description asks for (default 1).
pub fn resolved_instance_count(id: &InstanceData) -> (r: usize)
    ensures
        r == resolved_count(*id),
{
    match id.count {
        Some(n) => n,
        None => 1,
    }
}

/// The instance scale the description asks for (default 1.0, as bits).
pub fn resolved_instance_scale(id: &InstanceData) -> (r: u32)
    ensures
        r == resolved_scale(*id),
{
    match id.scale {
        Some(s) => s,
        None => F32_ONE,
    }
}

/// The sphere offset the description asks for (default the origin, as bits).
pub fn resolved_sphere_offset(id: &InstanceData) -> (r: Vec3Bits)
    ensures
        r == resolved_offset(*id),
{
    Vec3Bits {
        x: match id.position_x { Some(v) => v, None => F32_ZERO },
        y: match id.position_y { Some(v) => v, None => F32_ZERO },
        z: match id.position_z { Some(v) => v, None => F32_ZERO },
    }
}

/// The shader source file the description asks for (default `shader.wgsl`).
pub fn resolved_shader_file(sd: &ShaderData) -> (r: &str)
    ensures
        sd.source_file is Some ==> r@ == sd.source_file->0@,
        sd.source_file is None ==> r@ == "shader.wgsl"@,
{
    match &sd.source_file {
        Some(s) => s.as_str(),
        None => "shader.wgsl",
    }
}

// ---------------------------------------------------------------------------
// Compiling one module.

/// The geometry a module is generated from, as the host prepared it: the
/// fibonacci lattice for `Fibonacci`, nothing for `Cube`, the mesh loaded
/// from the file for `Loaded`.
pub enum MeshSource {
    Lattice(Vec<LatticePoint>),
    Cube,
    Loaded(Mesh),
}

/// The handles of the GPU resources the host created for one module.
#[derive(Clone, Copy, PartialEq, Eq, Structural, Debug)]
pub struct ModuleHandles {
    pub render_pipeline: u64,
    pub vertex_buffer: u64,
    pub index_buffer: u64,
    pub instance_buffer: u64,
}

/// Everything the host prepared for compiling one module.
pub struct ModuleInputs {
    pub mesh_source: MeshSource,
    pub shades: Option<Vec<Vec3Bits>>,
    pub placements: Vec<Placement>,
    pub handles: ModuleHandles,
}

/// Why a build was rejected.
#[derive(Clone, Copy, PartialEq, Eq, Structural, Debug)]
pub enum BuildError {
    /// The description and the prepared inputs do not agree.
    Config,
    /// A mesh file was unreadable or malformed.
    Geometry(MeshError),
}

/// The vertices the selected generator emits from this source.
pub open spec fn source_vertices(src: MeshSource) -> Seq<Vertex> {
    match src {
        MeshSource::Lattice(points) => Seq::new(
            (points@.len() + 1) as nat,
            |i: int| if i == 0 { center_vertex() } else { lattice_vertex(points@, i - 1) },
        ),
        MeshSource::Cube => Seq::new(8, |i: int| cube_vertex(i)),
        MeshSource::Loaded(m) => m.vertices@,
    }
}

/// The indices the selected generator emits from this source.
pub open spec fn source_indices(src: MeshSource) -> Seq<u16> {
    match src {
        MeshSource::Lattice(points) => Seq::new(
            (2 * points@.len()) as nat,
            |k: int| if k % 2 == 0 { 0u16 } else { (k / 2) as u16 },
        ),
        MeshSource::Cube => cube_indices(),
        MeshSource::Loaded(m) => m.indices@,
    }
}

/// The vertices after the selected coloring pass.
pub open spec fn colored_vertices(
    vs: Seq<Vertex>,
    f: MeshColorFunction,
    shades: Option<Vec<Vec3Bits>>,
) -> Seq<Vertex> {
    match f {
        MeshColorFunction::Black => Seq::new(vs.len(), |i: int| with_color(vs[i], black_color())),
        MeshColorFunction::White => Seq::new(vs.len(), |i: int| with_color(vs[i], white_color())),
        MeshColorFunction::Rainbow => Seq::new(
            vs.len(),
            |i: int| if i == 0 {
                with_color(vs[0], rainbow_center_color())
            } else {
                with_color(vs[i], shades->0@[i])
            },
        ),
    }
}

/// The instances the description plans from the prepared placements.
pub open spec fn planned_instances(id: InstanceData, placements: Seq<Placement>) -> Seq<Instance> {
    if resolved_rotation(id) is Default {
        seq![default_instance(resolved_scale(id))]
    } else {
        Seq::new(placements.len(), |i: int| placed_instance(placements[i], resolved_scale(id)))
    }
}

/// Whether the prepared inputs agree with the description: the geometry
/// matches the selected generator (the lattice has the requested sample
/// count, a loaded mesh is well formed and its index count fits), rainbow
/// shades are present exactly one per generated vertex, and sphere
/// placements are present exactly one per requested instance.
pub open spec fn inputs_consistent(data: AvatarModuleData, inputs: ModuleInputs) -> bool {
    let md = data.mesh_generation;
    let id = data.instancing;
    &&& match inputs.mesh_source {
        MeshSource::Lattice(points) => {
            &&& resolved_gen(md) is Fibonacci
            &&& points@.len() == resolved_sample(md)
            &&& points@.len() <= 0xFFFF
        },
        MeshSource::Cube => resolved_gen(md) is Cube,
        MeshSource::Loaded(m) => {
            &&& resolved_gen(md) is Loaded
            &&& m.well_formed()
            &&& m.indices@.len() <= 0xFFFF_FFFF
        },
    }
    &&& (resolved_color(md) is Rainbow ==> {
        &&& inputs.shades is Some
        &&& inputs.shades->0@.len() == source_vertices(inputs.mesh_source).len()
        &&& source_vertices(inputs.mesh_source).len() >= 1
    })
    &&& (resolved_rotation(id) is Sphere ==> {
        &&& resolved_count(id) >= 1
        &&& resolved_count(id) <= 0xFFFF_FFFF
        &&& inputs.placements@.len() == resolved_count(id)
    })
}

/// What a compiled module holds, given the description and inputs it was
/// compiled from: name and visibility verbatim, the generated mesh after
/// coloring, the planned instances, the handles verbatim, and counts that
/// match the mesh and instances.
pub open spec fn compiled_matches(
    data: AvatarModuleData,
    inputs: ModuleInputs,
    m: AvatarModule,
) -> bool {
    &&& m.module_name@ == data.module_name@
    &&& m.visible == data.visible
    &&& m.mesh.vertices@ == colored_vertices(
        source_vertices(inputs.mesh_source),
        resolved_color(data.mesh_generation),
        inputs.shades,
    )
    &&& m.mesh.indices@ == source_indices(inputs.mesh_source)
    &&& m.instances@ == planned_instances(data.instancing, inputs.placements@)
    &&& m.render_pipeline == inputs.handles.render_pipeline
    &&& m.vertex_buffer == inputs.handles.vertex_buffer
    &&& m.index_buffer == inputs.handles.index_buffer
    &&& m.instance_buffer == inputs.handles.instance_buffer
    &&& m.index_count == source_indices(inputs.mesh_source).len()
    &&& m.instance_count == m.instances@.len()
    &&& m.well_formed()
}

/// Checks at run time that the prepared inputs agree with the description.
fn check_inputs(data: &AvatarModuleData, inputs: &ModuleInputs) -> (r: bool)
    ensures
        r == inputs_consistent(*data, *inputs),
{
    let source_ok: bool = match (&data.mesh_generation.mesh_gen_function, &inputs.mesh_source) {
        (Some(MeshGenFunction::Fibonacci), MeshSource::Lattice(points))
        | (None, MeshSource::Lattice(points)) => {
            let wanted = resolved_sample_count(&data.mesh_generation);
            points.len() == wanted && points.len() <= 0xFFFF
        },
        (Some(MeshGenFunction::Cube), MeshSource::Cube) => true,
        (Some(MeshGenFunction::Loaded { .. }), MeshSource::Loaded(m)) => {
            m.is_well_formed() && m.indices.len() <= 0xFFFF_FFFF
        },
        _ => false,
    };
    if !source_ok {
        return false;
    }

    let color_ok: bool = match resolved_color_function(&data.mesh_generation) {
        MeshColorFunction::Rainbow => {
            let generated: usize = match &inputs.mesh_source {
                MeshSource::Lattice(points) => points.len() + 1,
                MeshSource::Cube => 8,
                MeshSource::Loaded(m) => m.vertices.len(),
            };
            match &inputs.shades {
                Some(shades) => shades.len() == generated && generated >= 1,
                None => false,
            }
        },
        _ => true,
    };
    if !color_ok {
        return false;
    }

    match resolved_rotation_function(&data.instancing) {
        InstanceRotationFunction::Sphere { .. } => {
            let count = resolved_instance_count(&data.instancing);
            count >= 1 && count <= 0xFFFF_FFFF && inputs.placements.len() == count
        },
        InstanceRotationFunction::Default => true,
    }
}

/// Compiles one module: generates the mesh the description selects from the
/// prepared geometry, colors it, plans the instances, and assembles the
/// module around the prepared GPU handles. Succeeds exactly when the
/// prepared inputs agree with the description.
pub fn compile_module(data: AvatarModuleData, inputs: ModuleInputs) -> (r: Result<
    AvatarModule,
    BuildError,
>)
    ensures
        r is Ok <==> inputs_consistent(data, inputs),
        r is Err ==> r->Err_0 == BuildError::Config,
        r is Ok ==> compiled_matches(data, inputs, r->Ok_0),
{
    if !check_inputs(&data, &inputs) {
        return Err(BuildError::Config);
    }

    let ghost inputs0 = inputs;
    let ModuleInputs { mesh_source, shades, placements, handles } = inputs;

    let mut mesh: Mesh = match mesh_source {
        MeshSource::Lattice(points) => {
            let m = gen_fibonacci_mesh(&points);
            proof {
                assert(m.vertices@ =~= source_vertices(inputs0.mesh_source));
                assert forall|k: int| 0 <= k < m.indices@.len() implies m.indices@[k]
                    == source_indices(inputs0.mesh_source)[k] by {
                    let j = k / 2;
                    if k % 2 == 0 {
                        assert(k == 2 * j);
                    } else {
                        assert(k == 2 * j + 1);
                    }
                }
                assert(m.indices@ =~= source_indices(inputs0.mesh_source));
            }
            m
        },
        MeshSource::Cube => {
            let m = gen_cube_mesh();
            proof {
                assert(m.vertices@ =~= source_vertices(inputs0.mesh_source));
                assert(m.indices@ =~= source_indices(inputs0.mesh_source));
            }
            m
        },
        MeshSource::Loaded(m) => m,
    };

    let color_function = resolved_color_function(&data.mesh_generation);
    color_mesh(&color_function, &mut mesh, shades.as_ref());
    proof {
        assert(mesh.vertices@ =~= colored_vertices(
            source_vertices(inputs0.mesh_source),
            resolved_color(data.mesh_generation),
            inputs0.shades,
        ));
    }

    let rotation_function = resolved_rotation_function(&data.instancing);
    let count = resolved_instance_count(&data.instancing);
    let scale = resolved_instance_scale(&data.instancing);
    let instances = generate_instances(&rotation_function, count, &placements, scale);
    proof {
        assert(instances@ =~= planned_instances(data.instancing, inputs0.placements@));
    }

    let index_count = mesh.indices.len() as u32;
    let instance_count = instances.len() as u32;

    Ok(AvatarModule {
        module_name: data.module_name,
        visible: data.visible,
        mesh,
        instances,
        render_pipeline: handles.render_pipeline,
        vertex_buffer: handles.vertex_buffer,
        index_buffer: handles.index_buffer,
        instance_buffer: handles.instance_buffer,
        index_count,
        instance_count,
    })
}

} // verus!

verus! {

// ---------------------------------------------------------------------------
// Building the whole avatar.

/// Whether a full build of this description from these prepared inputs
/// succeeds: one prepared input per module, each agreeing with its entry.
pub open spec fn build_succeeds(data: AvatarData, inputs: Seq<ModuleInputs>) -> bool {
    &&& data.avatar_module_data@.len() == inputs.len()
    &&& forall|i: int| 0 <= i < inputs.len()
        ==> inputs_consistent(data.avatar_module_data@[i], #[trigger] inputs[i])
}

/// What a built avatar holds: one compiled module per description entry, in
/// description order.
pub open spec fn built_matches(data: AvatarData, inputs: Seq<ModuleInputs>, a: Avatar) -> bool {
    &&& a.avatar_modules@.len() == data.avatar_module_data@.len()
    &&& forall|i: int| 0 <= i < a.avatar_modules@.len()
        ==> compiled_matches(
            data.avatar_module_data@[i],
            inputs[i],
            #[trigger] a.avatar_modules@[i],
        )
}

/// Builds the avatar: compiles every module of the description, in
/// description order, from its prepared inputs. All or nothing — the first
/// module that fails to compile fails the whole build.
pub fn build_avatar(avatar_data: AvatarData, inputs: Vec<ModuleInputs>) -> (r: Result<
    Avatar,
    BuildError,
>)
    ensures
        r is Ok <==> build_succeeds(avatar_data, inputs@),
        r is Ok ==> built_matches(avatar_data, inputs@, r->Ok_0),
        r is Err ==> r->Err_0 == BuildError::Config,
{
    let ghost data0 = avatar_data.avatar_module_data@;
    let ghost inputs0 = inputs@;
    let mut rest_data = avatar_data.avatar_module_data;
    let mut rest_inputs = inputs;

    if rest_data.len() != rest_inputs.len() {
        return Err(BuildError::Config);
    }

    let mut avatar_modules: Vec<AvatarModule> = Vec::new();
    while rest_data.len() > 0
        invariant
            data0 == avatar_data.avatar_module_data@,
            inputs0 == inputs@,
            rest_data@.len() == rest_inputs@.len(),
            avatar_modules@.len() + rest_data@.len() == data0.len(),
            data0.len() == inputs0.len(),
            data0.skip(avatar_modules@.len() as int) =~= rest_data@,
            inputs0.skip(avatar_modules@.len() as int) =~= rest_inputs@,
            forall|i: int| 0 <= i < avatar_modules@.len() ==> inputs_consistent(
                data0[i],
                #[trigger] inputs0[i],
            ),
            forall|i: int| 0 <= i < avatar_modules@.len() ==> compiled_matches(
                data0[i],
                inputs0[i],
                #[trigger] avatar_modules@[i],
            ),
        decreases rest_data@.len(),
    {
        let ghost k = avatar_modules@.len() as int;
        let module_data = rest_data.remove(0);
        let module_inputs = rest_inputs.remove(0);
        proof {
            assert(module_data == data0.skip(k)[0]);
            assert(module_inputs == inputs0.skip(k)[0]);
            assert(data0.skip(k)[0] == data0[k]);
            assert(inputs0.skip(k)[0] == inputs0[k]);
            assert(data0.skip(k).remove(0) =~= data0.skip(k + 1));
            assert(inputs0.skip(k).remove(0) =~= inputs0.skip(k + 1));
        }
        match compile_module(module_data, module_inputs) {
            Ok(module) => {
                avatar_modules.push(module);
            },
            Err(e) => {
                proof {
                    assert(0 <= k < inputs0.len());
                    assert(!inputs_consistent(data0[k], inputs0[k]));
                    assert(data0 == avatar_data.avatar_module_data@);
                    assert(!build_succeeds(avatar_data, inputs0));
                }
                return Err(e);
            },
        }
    }
    proof {
        assert(avatar_modules@.len() == data0.len());
    }
    Ok(Avatar { avatar_modules })
}

/// Replaces the avatar wholesale with a fresh build — all or nothing.
/// `prepared` is the host's outcome of reloading the description and
/// preparing the per-module inputs; if that failed, or any module fails to
/// compile, the avatar keeps its previous modules, untouched.
pub fn reload_avatar(
    avatar: &mut Avatar,
    prepared: Result<(AvatarData, Vec<ModuleInputs>), BuildError>,
) -> (r: Result<(), BuildError>)
    ensures
        r is Err ==> *final(avatar) == *old(avatar),
        prepared is Err ==> r is Err && r->Err_0 == prepared->Err_0,
        prepared is Ok ==> {
            &&& (r is Ok <==> build_succeeds(prepared->Ok_0.0, prepared->Ok_0.1@))
            &&& (r is Ok ==> built_matches(prepared->Ok_0.0, prepared->Ok_0.1@, *final(avatar)))
        },
{
    match prepared {
        Err(e) => Err(e),
        Ok((data, inputs)) => {
            match build_avatar(data, inputs) {
                Ok(built) => {
                    avatar.avatar_modules = built.avatar_modules;
                    Ok(())
                },
                Err(e) => Err(e),
            }
        },
    }
}

} // verus!
