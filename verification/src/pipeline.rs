//! The render pipeline: vertex buffer layouts, bind-group layouts and
//! the fixed-function state, validated at creation time.
//!
//! The pipeline consumes geometry at vertex-buffer slot 0 and
//! per-instance matrices at slot 1; bind group 0 is the texture+sampler
//! pair, bind group 1 the camera uniform.  A declared layout whose
//! attributes do not fit its stride is a configuration error caught
//! here, at creation — never at draw time.

use crate::surface::SurfaceFormat;
use crate::texture::{CompareFunction, TextureFormat};
use vstd::prelude::*;

verus! {

/// Vertex attribute formats used by this pipeline.
#[derive(Clone, Copy, Debug, PartialEq, Eq, Structural)]
pub enum VertexFormat {
    Float32x2,
    Float32x3,
    Float32x4,
}

/// The byte size of one attribute of the given format.
pub open spec fn vertex_format_size(f: VertexFormat) -> int {
    match f {
        VertexFormat::Float32x2 => 8,
        VertexFormat::Float32x3 => 12,
        VertexFormat::Float32x4 => 16,
    }
}

/// One vertex attribute: where it sits in the stride and which shader
/// input location it feeds.
#[derive(Clone, Copy, Debug, PartialEq, Eq, Structural)]
pub struct VertexAttribute {
    pub offset: u64,
    pub shader_location: u32,
    pub format: VertexFormat,
}

/// Whether a buffer advances per vertex or per instance.
#[derive(Clone, Copy, Debug, PartialEq, Eq, Structural)]
pub enum VertexStepMode {
    Vertex,
    Instance,
}

/// The declared layout of one vertex buffer slot.
#[derive(Clone, Debug, PartialEq, Eq)]
pub struct VertexBufferLayout {
    pub array_stride: u64,
    pub step_mode: VertexStepMode,
    pub attributes: Vec<VertexAttribute>,
}

/// Attribute `j` of layout `l` lies within the stride.
pub open spec fn attr_fits(l: VertexBufferLayout, j: int) -> bool {
    l.attributes@[j].offset + vertex_format_size(l.attributes@[j].format) <= l.array_stride
}

/// Attributes `j` and `j + 1` of layout `l` do not overlap and feed
/// ascending shader locations.
pub open spec fn attrs_adjacent_ok(l: VertexBufferLayout, j: int) -> bool {
    &&& l.attributes@[j].offset + vertex_format_size(l.attributes@[j].format) <= l.attributes@[j
        + 1].offset
    &&& l.attributes@[j].shader_location < l.attributes@[j + 1].shader_location
}

/// A well-formed layout: attributes lie within the stride, in ascending
/// non-overlapping offsets, feeding strictly ascending shader locations.
pub open spec fn layout_wf(l: VertexBufferLayout) -> bool {
    &&& forall|j: int| 0 <= j < l.attributes@.len() ==> #[trigger] attr_fits(l, j)
    &&& forall|j: int| 0 <= j && j + 1 < l.attributes@.len() ==> #[trigger] attrs_adjacent_ok(l, j)
}

/// The byte size of an attribute format.
pub fn vertex_format_size_bytes(f: VertexFormat) -> (s: u64)
    ensures
        s == vertex_format_size(f),
{
    match f {
        VertexFormat::Float32x2 => 8,
        VertexFormat::Float32x3 => 12,
        VertexFormat::Float32x4 => 16,
    }
}

/// Checks that a declared layout is well-formed.
pub fn validate_layout(l: &VertexBufferLayout) -> (ok: bool)
    ensures
        ok == layout_wf(*l),
{
    let mut i: usize = 0;
    while i < l.attributes.len()
        invariant
            0 <= i <= l.attributes@.len(),
            forall|j: int| 0 <= j < i ==> #[trigger] attr_fits(*l, j),
            forall|j: int| 0 <= j && j + 1 < i ==> #[trigger] attrs_adjacent_ok(*l, j),
        decreases l.attributes@.len() - i,
    {
        let a = l.attributes[i];
        let size = vertex_format_size_bytes(a.format);
        if a.offset > u64::MAX - size || a.offset + size > l.array_stride {
            proof {
                assert(!attr_fits(*l, i as int));
            }
            return false;
        }
        if i > 0 {
            let prev = l.attributes[i - 1];
            let prev_size = vertex_format_size_bytes(prev.format);
            proof {
                assert(attr_fits(*l, i as int - 1));
            }
            if prev.offset + prev_size > a.offset || prev.shader_location >= a.shader_location {
                proof {
                    assert(!attrs_adjacent_ok(*l, i as int - 1));
                }
                return false;
            }
        }
        proof {
            assert(attr_fits(*l, i as int));
            if i > 0 {
                assert(attrs_adjacent_ok(*l, i as int - 1));
            }
            assert forall|j: int| 0 <= j && j + 1 < i + 1 implies #[trigger] attrs_adjacent_ok(
                *l,
                j,
            ) by {
                if j + 1 == i {
                    assert(j == i - 1);
                }
            }
        }
        i = i + 1;
    }
    true
}

/// Shader stages a binding can be visible to.
#[derive(Clone, Copy, Debug, PartialEq, Eq, Structural)]
pub enum ShaderStage {
    Vertex,
    Fragment,
}

/// The type of one binding.
#[derive(Clone, Copy, Debug, PartialEq, Eq, Structural)]
pub enum BindingType {
    Texture2d,
    SamplerFiltering,
    UniformBuffer,
}

/// One entry of a bind-group layout.
#[derive(Clone, Copy, Debug, PartialEq, Eq, Structural)]
pub struct BindGroupLayoutEntry {
    pub binding: u32,
    pub visibility: ShaderStage,
    pub ty: BindingType,
}

/// A bind-group layout: its entries in binding order.
#[derive(Clone, Debug, PartialEq, Eq)]
pub struct BindGroupLayout {
    pub entries: Vec<BindGroupLayoutEntry>,
}

/// The texture bind-group layout: a sampled 2d texture at binding 0 and
/// a filtering sampler at binding 1, both fragment-visible.
pub open spec fn texture_layout_entries() -> Seq<BindGroupLayoutEntry> {
    seq![
        BindGroupLayoutEntry {
            binding: 0,
            visibility: ShaderStage::Fragment,
            ty: BindingType::Texture2d,
        },
        BindGroupLayoutEntry {
            binding: 1,
            visibility: ShaderStage::Fragment,
            ty: BindingType::SamplerFiltering,
        },
    ]
}

/// The camera bind-group layout: one uniform buffer at binding 0,
/// vertex-visible.
pub open spec fn camera_layout_entries() -> Seq<BindGroupLayoutEntry> {
    seq![
        BindGroupLayoutEntry {
            binding: 0,
            visibility: ShaderStage::Vertex,
            ty: BindingType::UniformBuffer,
        },
    ]
}

/// Builds the texture bind-group layout.
pub fn texture_bind_group_layout() -> (l: BindGroupLayout)
    ensures
        l.entries@ == texture_layout_entries(),
{
    let mut entries: Vec<BindGroupLayoutEntry> = Vec::new();
    entries.push(
        BindGroupLayoutEntry {
            binding: 0,
            visibility: ShaderStage::Fragment,
            ty: BindingType::Texture2d,
        },
    );
    entries.push(
        BindGroupLayoutEntry {
            binding: 1,
            visibility: ShaderStage::Fragment,
            ty: BindingType::SamplerFiltering,
        },
    );
    proof {
        assert(entries@ =~= texture_layout_entries());
    }
    BindGroupLayout { entries }
}

/// Builds the camera bind-group layout.
pub fn camera_bind_group_layout() -> (l: BindGroupLayout)
    ensures
        l.entries@ == camera_layout_entries(),
{
    let mut entries: Vec<BindGroupLayoutEntry> = Vec::new();
    entries.push(
        BindGroupLayoutEntry {
            binding: 0,
            visibility: ShaderStage::Vertex,
            ty: BindingType::UniformBuffer,
        },
    );
    proof {
        assert(entries@ =~= camera_layout_entries());
    }
    BindGroupLayout { entries }
}

/// What a bind group places at one binding slot.
#[derive(Clone, Copy, Debug, PartialEq, Eq, Structural)]
pub enum BindingResource {
    TextureView,
    Sampler,
    UniformBuffer,
}

/// Whether a resource fits a binding type.
pub open spec fn binding_matches(r: BindingResource, t: BindingType) -> bool {
    match t {
        BindingType::Texture2d => r == BindingResource::TextureView,
        BindingType::SamplerFiltering => r == BindingResource::Sampler,
        BindingType::UniformBuffer => r == BindingResource::UniformBuffer,
    }
}

/// A bind group: the layout it was created against and the resource
/// bound at each of that layout's slots.
#[derive(Clone, Debug, PartialEq, Eq)]
pub struct BindGroup {
    pub layout: BindGroupLayout,
    pub resources: Vec<BindingResource>,
}

/// A bind group binds one matching resource per layout entry.
pub open spec fn bind_group_wf(g: BindGroup) -> bool {
    &&& g.resources@.len() == g.layout.entries@.len()
    &&& forall|i: int|
        0 <= i < g.resources@.len() ==> binding_matches(
            #[trigger] g.resources@[i],
            g.layout.entries@[i].ty,
        )
}

/// Builds a bind group binding a texture view and its sampler to the
/// texture layout's two slots.
pub fn create_texture_bind_group() -> (g: BindGroup)
    ensures
        g.layout.entries@ == texture_layout_entries(),
        bind_group_wf(g),
{
    let layout = texture_bind_group_layout();
    let mut resources: Vec<BindingResource> = Vec::new();
    resources.push(BindingResource::TextureView);
    resources.push(BindingResource::Sampler);
    let g = BindGroup { layout, resources };
    proof {
        assert(forall|i: int|
            0 <= i < g.resources@.len() ==> binding_matches(
                #[trigger] g.resources@[i],
                g.layout.entries@[i].ty,
            ));
    }
    g
}

/// Builds a bind group binding the camera uniform buffer to the camera
/// layout's single slot.
pub fn create_camera_bind_group() -> (g: BindGroup)
    ensures
        g.layout.entries@ == camera_layout_entries(),
        bind_group_wf(g),
{
    let layout = camera_bind_group_layout();
    let mut resources: Vec<BindingResource> = Vec::new();
    resources.push(BindingResource::UniformBuffer);
    let g = BindGroup { layout, resources };
    proof {
        assert(forall|i: int|
            0 <= i < g.resources@.len() ==> binding_matches(
                #[trigger] g.resources@[i],
                g.layout.entries@[i].ty,
            ));
    }
    g
}

/// Depth-stencil state: depth compare and write, no stencil.
#[derive(Clone, Copy, Debug, PartialEq, Eq, Structural)]
pub struct DepthStencilState {
    pub format: TextureFormat,
    pub depth_write_enabled: bool,
    pub depth_compare: CompareFunction,
}

/// Primitive assembly (fixed in this core).
#[derive(Clone, Copy, Debug, PartialEq, Eq, Structural)]
pub enum PrimitiveTopology {
    TriangleList,
}

#[derive(Clone, Copy, Debug, PartialEq, Eq, Structural)]
pub enum FrontFace {
    Ccw,
}

#[derive(Clone, Copy, Debug, PartialEq, Eq, Structural)]
pub enum CullMode {
    Back,
}

#[derive(Clone, Copy, Debug, PartialEq, Eq, Structural)]
pub struct PrimitiveState {
    pub topology: PrimitiveTopology,
    pub front_face: FrontFace,
    pub cull_mode: CullMode,
}

/// Colour blending (straight replace in this core).
#[derive(Clone, Copy, Debug, PartialEq, Eq, Structural)]
pub enum BlendMode {
    Replace,
}

/// The colour target the pipeline renders to.
#[derive(Clone, Copy, Debug, PartialEq, Eq, Structural)]
pub struct ColorTargetState {
    pub format: SurfaceFormat,
    pub blend: BlendMode,
}

/// The immutable pipeline object.
#[derive(Clone, Debug, PartialEq, Eq)]
pub struct RenderPipeline {
    pub vertex_layouts: Vec<VertexBufferLayout>,
    pub bind_group_layouts: Vec<BindGroupLayout>,
    pub target: ColorTargetState,
    pub depth_stencil: DepthStencilState,
    pub primitive: PrimitiveState,
    pub sample_count: u32,
}

/// A malformed pipeline configuration: fatal, found at creation time.
#[derive(Clone, Copy, Debug, PartialEq, Eq, Structural)]
pub enum PipelineError {
    InvalidVertexLayout,
}

/// Builds the pipeline: the given vertex-buffer and bind-group layouts,
/// the surface's colour format with replace blending, depth compare
/// "less" with writes enabled, triangle lists with counter-clockwise
/// front faces and back-face culling, single-sampled.  Fails exactly
/// where a declared vertex layout is malformed.
pub fn build_pipeline(
    format: SurfaceFormat,
    vertex_layouts: Vec<VertexBufferLayout>,
    bind_group_layouts: Vec<BindGroupLayout>,
) -> (r: Result<RenderPipeline, PipelineError>)
    ensures
        match r {
            Ok(p) => {
                &&& forall|i: int|
                    0 <= i < vertex_layouts@.len() ==> layout_wf(#[trigger] vertex_layouts@[i])
                &&& p.vertex_layouts@ == vertex_layouts@
                &&& p.bind_group_layouts@ == bind_group_layouts@
                &&& p.target == (ColorTargetState { format, blend: BlendMode::Replace })
                &&& p.depth_stencil == (DepthStencilState {
                    format: TextureFormat::Depth32Float,
                    depth_write_enabled: true,
                    depth_compare: CompareFunction::Less,
                })
                &&& p.primitive == (PrimitiveState {
                    topology: PrimitiveTopology::TriangleList,
                    front_face: FrontFace::Ccw,
                    cull_mode: CullMode::Back,
                })
                &&& p.sample_count == 1
            },
            Err(e) => {
                &&& e == PipelineError::InvalidVertexLayout
                &&& exists|i: int|
                    0 <= i < vertex_layouts@.len() && !layout_wf(#[trigger] vertex_layouts@[i])
            },
        },
{
    let mut i: usize = 0;
    while i < vertex_layouts.len()
        invariant
            0 <= i <= vertex_layouts@.len(),
            forall|j: int| 0 <= j < i ==> layout_wf(#[trigger] vertex_layouts@[j]),
        decreases vertex_layouts@.len() - i,
    {
        if !validate_layout(&vertex_layouts[i]) {
            return Err(PipelineError::InvalidVertexLayout);
        }
        i = i + 1;
    }
    Ok(
        RenderPipeline {
            vertex_layouts,
            bind_group_layouts,
            target: ColorTargetState { format, blend: BlendMode::Replace },
            depth_stencil: DepthStencilState {
                format: TextureFormat::Depth32Float,
                depth_write_enabled: true,
                depth_compare: CompareFunction::Less,
            },
            primitive: PrimitiveState {
                topology: PrimitiveTopology::TriangleList,
                front_face: FrontFace::Ccw,
                cull_mode: CullMode::Back,
            },
            sample_count: 1,
        },
    )
}

} // verus!
