//! The fixed GPU vertex-buffer layouts.
//!
//! Every pipeline consumes the same two vertex streams: the mesh vertices at
//! slot 0 (position, color, highlight scalar) and, when instanced, one 4×4
//! model matrix per instance at slot 1, spread across shader locations 5–8.
//! The layout tables below are constant data; their contracts pin every
//! stride, offset, location and format.

use vstd::prelude::*;
use crate::model::Vertex;

verus! {

/// The attribute formats the two layouts use.
#[derive(Clone, Copy, PartialEq, Eq, Structural, Debug)]
pub enum VertexFormat {
    Float32,
    Float32x3,
    Float32x4,
}

/// Whether a buffer advances per vertex or per instance.
#[derive(Clone, Copy, PartialEq, Eq, Structural, Debug)]
pub enum VertexStepMode {
    Vertex,
    Instance,
}

/// One attribute of a vertex buffer: where it starts in the element, which
/// shader location reads it, and its format.
#[derive(Clone, Copy, PartialEq, Eq, Structural, Debug)]
pub struct VertexAttribute {
    pub offset: u64,
    pub shader_location: u32,
    pub format: VertexFormat,
}

/// The layout of one vertex buffer: the element stride, the step mode, and
/// the attributes read from each element.
#[derive(Debug)]
pub struct VertexBufferLayout {
    pub array_stride: u64,
    pub step_mode: VertexStepMode,
    pub attributes: Vec<VertexAttribute>,
}

/// One instance's model matrix as uploaded to the GPU: a 4×4 matrix of
/// `f32` bit patterns, built by the host from the instance's translation
/// and rotation.
#[derive(Clone, Copy, PartialEq, Eq, Debug)]
pub struct InstanceRaw {
    pub model: [[u32; 4]; 4],
}

/// The attribute list of the mesh vertex stream: position at location 0,
/// color at location 1, the highlight scalar at location 2.
pub open spec fn vertex_attributes() -> Seq<VertexAttribute> {
    seq![
        VertexAttribute { offset: 0, shader_location: 0, format: VertexFormat::Float32x3 },
        VertexAttribute { offset: 12, shader_location: 1, format: VertexFormat::Float32x3 },
        VertexAttribute { offset: 24, shader_location: 2, format: VertexFormat::Float32 },
    ]
}

/// The attribute list of the instance stream: the four columns of the model
/// matrix at locations 5 through 8.
pub open spec fn instance_attributes() -> Seq<VertexAttribute> {
    seq![
        VertexAttribute { offset: 0, shader_location: 5, format: VertexFormat::Float32x4 },
        VertexAttribute { offset: 16, shader_location: 6, format: VertexFormat::Float32x4 },
        VertexAttribute { offset: 32, shader_location: 7, format: VertexFormat::Float32x4 },
        VertexAttribute { offset: 48, shader_location: 8, format: VertexFormat::Float32x4 },
    ]
}

impl Vertex {
    /// The layout of the mesh vertex stream: seven 4-byte scalars per
    /// element, stepped per vertex.
    pub fn desc() -> (r: VertexBufferLayout)
        ensures
            r.array_stride == 28,
            r.step_mode is Vertex,
            r.attributes@ =~= vertex_attributes(),
    {
        let mut attributes: Vec<VertexAttribute> = Vec::new();
        attributes.push(VertexAttribute {
            offset: 0,
            shader_location: 0,
            format: VertexFormat::Float32x3,
        });
        attributes.push(VertexAttribute {
            offset: 12,
            shader_location: 1,
            format: VertexFormat::Float32x3,
        });
        attributes.push(VertexAttribute {
            offset: 24,
            shader_location: 2,
            format: VertexFormat::Float32,
        });
        VertexBufferLayout { array_stride: 28, step_mode: VertexStepMode::Vertex, attributes }
    }
}

impl InstanceRaw {
    /// The layout of the instance stream: one 64-byte matrix per element,
    /// stepped per instance.
    pub fn desc() -> (r: VertexBufferLayout)
        ensures
            r.array_stride == 64,
            r.step_mode is Instance,
            r.attributes@ =~= instance_attributes(),
    {
        let mut attributes: Vec<VertexAttribute> = Vec::new();
        attributes.push(VertexAttribute {
            offset: 0,
            shader_location: 5,
            format: VertexFormat::Float32x4,
        });
        attributes.push(VertexAttribute {
            offset: 16,
            shader_location: 6,
            format: VertexFormat::Float32x4,
        });
        attributes.push(VertexAttribute {
            offset: 32,
            shader_location: 7,
            format: VertexFormat::Float32x4,
        });
        attributes.push(VertexAttribute {
            offset: 48,
            shader_location: 8,
            format: VertexFormat::Float32x4,
        });
        VertexBufferLayout { array_stride: 64, step_mode: VertexStepMode::Instance, attributes }
    }
}

} // verus!

verus! {

/// Which pipeline stages read a shared uniform.
#[derive(Clone, Copy, PartialEq, Eq, Structural, Debug)]
pub enum BindingVisibility {
    Vertex,
    VertexFragment,
}

/// One entry of the shared uniform group layout.
#[derive(Clone, Copy, PartialEq, Eq, Structural, Debug)]
pub struct BindingEntry {
    pub binding: u32,
    pub visibility: BindingVisibility,
}

/// The entries of the shared uniform group every pipeline binds: the camera
/// uniform at binding 0 (vertex stage only), the time scalar at 1, the audio
/// envelope at 2, and the reserved fourth slot at 3.
pub open spec fn shared_binding_entries() -> Seq<BindingEntry> {
    seq![
        BindingEntry { binding: 0, visibility: BindingVisibility::Vertex },
        BindingEntry { binding: 1, visibility: BindingVisibility::VertexFragment },
        BindingEntry { binding: 2, visibility: BindingVisibility::VertexFragment },
        BindingEntry { binding: 3, visibility: BindingVisibility::VertexFragment },
    ]
}

/// The layout of the shared uniform group, one binding per uniform buffer.
pub fn shared_binding_layout() -> (r: Vec<BindingEntry>)
    ensures
        r@ =~= shared_binding_entries(),
{
    let mut entries: Vec<BindingEntry> = Vec::new();
    entries.push(BindingEntry { binding: 0, visibility: BindingVisibility::Vertex });
    entries.push(BindingEntry { binding: 1, visibility: BindingVisibility::VertexFragment });
    entries.push(BindingEntry { binding: 2, visibility: BindingVisibility::VertexFragment });
    entries.push(BindingEntry { binding: 3, visibility: BindingVisibility::VertexFragment });
    entries
}

} // verus!

verus! {

/// The depth comparison a pipeline tests fragments with.
#[derive(Clone, Copy, PartialEq, Eq, Structural, Debug)]
pub enum DepthCompare {
    Never,
    Less,
    Equal,
    LessEqual,
    Greater,
    NotEqual,
    GreaterEqual,
    Always,
}

/// How a color target combines a fragment with what is already there.
#[derive(Clone, Copy, PartialEq, Eq, Structural, Debug)]
pub enum BlendComponent {
    /// The fragment replaces the target.
    Replace,
    /// Standard alpha blending over the target.
    Over,
}

/// The fixed parts of every module pipeline, identical whatever the module's
/// topology and shader: the depth-stencil state and the blend state of the
/// one shared color target.
#[derive(Clone, Copy, PartialEq, Eq, Structural, Debug)]
pub struct PipelineConfig {
    pub depth_write_enabled: bool,
    pub depth_compare: DepthCompare,
    pub color_blend: BlendComponent,
    pub alpha_blend: BlendComponent,
}

/// The configuration every module pipeline declares: depth testing enabled
/// and written with a `Less` comparison, and the color target replacing both
/// color and alpha.
pub fn pipeline_config() -> (r: PipelineConfig)
    ensures
        r == (PipelineConfig {
            depth_write_enabled: true,
            depth_compare: DepthCompare::Less,
            color_blend: BlendComponent::Replace,
            alpha_blend: BlendComponent::Replace,
        }),
{
    PipelineConfig {
        depth_write_enabled: true,
        depth_compare: DepthCompare::Less,
        color_blend: BlendComponent::Replace,
        alpha_blend: BlendComponent::Replace,
    }
}

/// The entry points every module shader is compiled against: the vertex
/// stage and the fragment stage.
pub fn shader_entry_points() -> (r: (&'static str, &'static str))
    ensures
        r.0@ == "vs_main"@,
        r.1@ == "fs_main"@,
{
    ("vs_main", "fs_main")
}

} // verus!
