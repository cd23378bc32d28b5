use avatar_pipeline::layout::{pipeline_config, shader_entry_points, shared_binding_layout,
    BindingVisibility, BlendComponent, DepthCompare, InstanceRaw, VertexAttribute, VertexFormat,
    VertexStepMode};
use avatar_pipeline::model::Vertex;

#[test]
fn vertex_stream_layout() {
    let layout = Vertex::desc();
    assert_eq!(layout.array_stride, 28);
    assert_eq!(layout.step_mode, VertexStepMode::Vertex);
    assert_eq!(
        layout.attributes,
        vec![
            VertexAttribute { offset: 0, shader_location: 0, format: VertexFormat::Float32x3 },
            VertexAttribute { offset: 12, shader_location: 1, format: VertexFormat::Float32x3 },
            VertexAttribute { offset: 24, shader_location: 2, format: VertexFormat::Float32 },
        ]
    );
}

#[test]
fn instance_stream_layout() {
    let layout = InstanceRaw::desc();
    assert_eq!(layout.array_stride, 64);
    assert_eq!(layout.step_mode, VertexStepMode::Instance);
    let locations: Vec<u32> = layout.attributes.iter().map(|a| a.shader_location).collect();
    assert_eq!(locations, vec![5, 6, 7, 8]);
    let offsets: Vec<u64> = layout.attributes.iter().map(|a| a.offset).collect();
    assert_eq!(offsets, vec![0, 16, 32, 48]);
    for attribute in &layout.attributes {
        assert_eq!(attribute.format, VertexFormat::Float32x4);
    }
}

#[test]
fn shared_uniform_group_layout() {
    let entries = shared_binding_layout();
    assert_eq!(entries.len(), 4);
    for (i, entry) in entries.iter().enumerate() {
        assert_eq!(entry.binding, i as u32);
    }
    assert_eq!(entries[0].visibility, BindingVisibility::Vertex);
    for entry in &entries[1..] {
        assert_eq!(entry.visibility, BindingVisibility::VertexFragment);
    }
}

#[test]
fn pipeline_fixed_configuration() {
    let config = pipeline_config();
    assert!(config.depth_write_enabled);
    assert_eq!(config.depth_compare, DepthCompare::Less);
    assert_eq!(config.color_blend, BlendComponent::Replace);
    assert_eq!(config.alpha_blend, BlendComponent::Replace);
    assert_eq!(shader_entry_points(), ("vs_main", "fs_main"));
}
