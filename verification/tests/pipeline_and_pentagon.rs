use render_core::pipeline::{
    build_pipeline, camera_bind_group_layout, texture_bind_group_layout, validate_layout,
    BindingType, BlendMode, CullMode, FrontFace, PipelineError, PrimitiveTopology, ShaderStage,
    VertexAttribute, VertexBufferLayout, VertexFormat, VertexStepMode,
};
use render_core::texture::{CompareFunction as PipelineCompare, TextureFormat as DepthFormat};
use render_core::vertex::{index_buffer_bytes, indices, vertex_buffer_bytes, vertices, Vertex};
use render_core::model::{ModelVertex, Vertex as VertexTrait};
use render_core::surface::SurfaceFormat;

#[test]
fn canonical_bind_group_layouts() {
    let t = texture_bind_group_layout();
    assert_eq!(t.entries.len(), 2);
    assert_eq!(t.entries[0].binding, 0);
    assert_eq!(t.entries[0].visibility, ShaderStage::Fragment);
    assert_eq!(t.entries[0].ty, BindingType::Texture2d);
    assert_eq!(t.entries[1].binding, 1);
    assert_eq!(t.entries[1].ty, BindingType::SamplerFiltering);
    let c = camera_bind_group_layout();
    assert_eq!(c.entries.len(), 1);
    assert_eq!(c.entries[0].visibility, ShaderStage::Vertex);
    assert_eq!(c.entries[0].ty, BindingType::UniformBuffer);
}

#[test]
fn pipeline_fixes_rasterization_and_depth_state() {
    let layouts = vec![ModelVertex::desc()];
    let groups = vec![texture_bind_group_layout(), camera_bind_group_layout()];
    let p = build_pipeline(SurfaceFormat::Rgba8UnormSrgb, layouts, groups).unwrap();
    assert_eq!(p.target.format, SurfaceFormat::Rgba8UnormSrgb);
    assert_eq!(p.target.blend, BlendMode::Replace);
    assert_eq!(p.depth_stencil.format, DepthFormat::Depth32Float);
    assert!(p.depth_stencil.depth_write_enabled);
    assert_eq!(p.depth_stencil.depth_compare, PipelineCompare::Less);
    assert_eq!(p.primitive.topology, PrimitiveTopology::TriangleList);
    assert_eq!(p.primitive.front_face, FrontFace::Ccw);
    assert_eq!(p.primitive.cull_mode, CullMode::Back);
    assert_eq!(p.sample_count, 1);
}

#[test]
fn pipeline_rejects_malformed_layout() {
    // The second attribute overflows the declared stride.
    let bad = VertexBufferLayout {
        array_stride: 16,
        step_mode: VertexStepMode::Vertex,
        attributes: vec![
            VertexAttribute { offset: 0, shader_location: 0, format: VertexFormat::Float32x3 },
            VertexAttribute { offset: 12, shader_location: 1, format: VertexFormat::Float32x2 },
        ],
    };
    assert!(!validate_layout(&bad));
    let r = build_pipeline(SurfaceFormat::Bgra8UnormSrgb, vec![bad], vec![]);
    assert_eq!(r.unwrap_err(), PipelineError::InvalidVertexLayout);
}

#[test]
fn layout_rejects_unordered_shader_locations() {
    let bad = VertexBufferLayout {
        array_stride: 32,
        step_mode: VertexStepMode::Vertex,
        attributes: vec![
            VertexAttribute { offset: 0, shader_location: 1, format: VertexFormat::Float32x3 },
            VertexAttribute { offset: 12, shader_location: 1, format: VertexFormat::Float32x2 },
        ],
    };
    assert!(!validate_layout(&bad));
}

#[test]
fn pentagon_data_is_the_expected_geometry() {
    let vs = vertices();
    assert_eq!(vs.len(), 5);
    assert_eq!(vs[0].position[0], (-0.0868241f32).to_bits());
    assert_eq!(vs[0].position[1], (0.49240386f32).to_bits());
    assert_eq!(vs[0].position[2], 0);
    assert_eq!(vs[0].tex_coords[0], (0.4131759f32).to_bits());
    assert_eq!(vs[4].tex_coords[1], (0.2652641f32).to_bits());
    let ix = indices();
    assert_eq!(ix, vec![0u16, 1, 4, 1, 2, 4, 2, 3, 4]);
    for &i in ix.iter() {
        assert!((i as usize) < vs.len());
    }
}

#[test]
fn pentagon_buffers_serialize_to_declared_layout() {
    let vs = vertices();
    let bytes = vertex_buffer_bytes(&vs);
    let desc = Vertex::desc();
    assert_eq!(desc.array_stride, 20);
    assert_eq!(bytes.len(), 100);
    // Vertex 1's texture coordinates start at stride + declared offset 12.
    assert_eq!(&bytes[32..36], &(0.0048659444f32).to_bits().to_le_bytes());
    let ib = index_buffer_bytes(&indices());
    assert_eq!(ib.len(), 18);
    assert_eq!(&ib[0..6], &[0, 0, 1, 0, 4, 0]);
}
