//! Mesh and material aggregation.
//!
//! `load` consumes already-parsed vertex/index arrays and encoded image
//! bytes, validates them, and produces a `Model` whose invariant the
//! renderer relies on: every mesh's material index is in range, every
//! index references an existing vertex, and every material's bind group
//! matches the pipeline's texture bind-group layout exactly.  Any
//! failure aborts the whole load; no partially-constructed model is ever
//! returned.

use crate::pipeline::{
    bind_group_wf, create_texture_bind_group, texture_layout_entries, BindGroup, BindGroupLayout,
    VertexAttribute, VertexBufferLayout, VertexFormat, VertexStepMode,
};
use crate::texture::{color_texture_for, decoded_rgba, RgbaPixels, Texture};
use crate::wire::{words_le, words_to_le_bytes};
use vstd::prelude::*;

verus! {

/// Vertex types declare the buffer layout the pipeline reads them with.
pub trait Vertex {
    /// The declared stride, in bytes.
    spec fn spec_stride() -> u64;

    /// Whether the buffer advances per vertex or per instance.
    spec fn spec_step_mode() -> VertexStepMode;

    /// The declared attributes.
    spec fn spec_attributes() -> Seq<VertexAttribute>;

    /// The layout handed to the pipeline.
    fn desc() -> (l: VertexBufferLayout)
        ensures
            l.array_stride == Self::spec_stride(),
            l.step_mode == Self::spec_step_mode(),
            l.attributes@ == Self::spec_attributes(),
    ;
}

/// One vertex of a model mesh: position, texture coordinates and normal,
/// as IEEE-754 bit patterns.  The packed order of these fields is part of
/// the wire contract with the pipeline.
#[derive(Clone, Copy, Debug, PartialEq, Eq)]
pub struct ModelVertex {
    pub position: [u32; 3],
    pub tex_coords: [u32; 2],
    pub normal: [u32; 3],
}

/// The eight words of one serialized model vertex: position, then
/// texture coordinates, then normal.
pub open spec fn model_vertex_words(v: ModelVertex) -> Seq<u32> {
    seq![
        v.position@[0],
        v.position@[1],
        v.position@[2],
        v.tex_coords@[0],
        v.tex_coords@[1],
        v.normal@[0],
        v.normal@[1],
        v.normal@[2],
    ]
}

/// The words of a whole vertex buffer: eight per vertex, in order.
pub open spec fn vertices_words(s: Seq<ModelVertex>) -> Seq<u32> {
    Seq::new(8 * s.len(), |i: int| model_vertex_words(s[i / 8])[i % 8])
}

/// Appending one vertex appends exactly its eight words.
pub proof fn lemma_vertices_words_push(s: Seq<ModelVertex>, v: ModelVertex)
    ensures
        vertices_words(s.push(v)) == vertices_words(s) + model_vertex_words(v),
{
    let lhs = vertices_words(s.push(v));
    let rhs = vertices_words(s) + model_vertex_words(v);
    assert forall|i: int| 0 <= i < lhs.len() implies lhs[i] == rhs[i] by {
        if i < 8 * s.len() {
            assert(i / 8 < s.len()) by (nonlinear_arith)
                requires
                    0 <= i < 8 * s.len(),
            ;
            assert(s.push(v)[i / 8] == s[i / 8]);
        } else {
            assert(i / 8 == s.len() && i % 8 == i - 8 * s.len()) by (nonlinear_arith)
                requires
                    8 * s.len() <= i < 8 * s.len() + 8,
            ;
            assert(s.push(v)[i / 8] == v);
        }
    }
    assert(lhs =~= rhs);
}

impl Vertex for ModelVertex {
    open spec fn spec_stride() -> u64 {
        32
    }

    open spec fn spec_step_mode() -> VertexStepMode {
        VertexStepMode::Vertex
    }

    open spec fn spec_attributes() -> Seq<VertexAttribute> {
        seq![
            VertexAttribute { offset: 0, shader_location: 0, format: VertexFormat::Float32x3 },
            VertexAttribute { offset: 12, shader_location: 1, format: VertexFormat::Float32x2 },
            VertexAttribute { offset: 20, shader_location: 2, format: VertexFormat::Float32x3 },
        ]
    }

    fn desc() -> (l: VertexBufferLayout) {
        let mut attributes: Vec<VertexAttribute> = Vec::new();
        attributes.push(
            VertexAttribute { offset: 0, shader_location: 0, format: VertexFormat::Float32x3 },
        );
        attributes.push(
            VertexAttribute { offset: 12, shader_location: 1, format: VertexFormat::Float32x2 },
        );
        attributes.push(
            VertexAttribute { offset: 20, shader_location: 2, format: VertexFormat::Float32x3 },
        );
        proof {
            assert(attributes@ =~= ModelVertex::spec_attributes());
        }
        VertexBufferLayout {
            array_stride: 32,
            step_mode: VertexStepMode::Vertex,
            attributes,
        }
    }
}

/// The declared model-vertex layout agrees with the serialized buffer:
/// vertex `i` occupies words 8i..8i+8 (one 32-byte stride), and the
/// three declared byte offsets are those of the serialized position
/// (word 0), texture coordinates (word 3) and normal (word 5).
pub proof fn lemma_model_vertex_layout_matches(s: Seq<ModelVertex>, i: int)
    requires
        0 <= i < s.len(),
    ensures
        ModelVertex::spec_stride() == 4 * 8,
        vertices_words(s).subrange(8 * i, 8 * i + 8) == model_vertex_words(s[i]),
        ModelVertex::spec_attributes()[0].offset == 4 * 0,
        ModelVertex::spec_attributes()[1].offset == 4 * 3,
        ModelVertex::spec_attributes()[2].offset == 4 * 5,
{
    let sub = vertices_words(s).subrange(8 * i, 8 * i + 8);
    assert(8 * i + 8 <= 8 * s.len()) by (nonlinear_arith)
        requires
            0 <= i < s.len(),
    ;
    assert forall|w: int| 0 <= w < 8 implies sub[w] == model_vertex_words(s[i])[w] by {
        assert((8 * i + w) / 8 == i && (8 * i + w) % 8 == w) by (nonlinear_arith)
            requires
                0 <= i,
                0 <= w < 8,
        ;
    }
    assert(sub =~= model_vertex_words(s[i]));
}

/// Serializes a model-vertex buffer to the bytes uploaded to the GPU.
pub fn vertex_buffer_bytes(vs: &Vec<ModelVertex>) -> (out: Vec<u8>)
    ensures
        out@ == words_le(vertices_words(vs@)),
{
    let mut words: Vec<u32> = Vec::new();
    let mut k: usize = 0;
    while k < vs.len()
        invariant
            0 <= k <= vs@.len(),
            words@ == vertices_words(vs@.take(k as int)),
        decreases vs@.len() - k,
    {
        let v = vs[k];
        words.push(v.position[0]);
        words.push(v.position[1]);
        words.push(v.position[2]);
        words.push(v.tex_coords[0]);
        words.push(v.tex_coords[1]);
        words.push(v.normal[0]);
        words.push(v.normal[1]);
        words.push(v.normal[2]);
        proof {
            lemma_vertices_words_push(vs@.take(k as int), vs@[k as int]);
            assert(words@ =~= vertices_words(vs@.take(k as int)) + model_vertex_words(
                vs@[k as int],
            ));
            assert(vs@.take(k + 1) =~= vs@.take(k as int).push(vs@[k as int]));
        }
        k = k + 1;
    }
    proof {
        assert(vs@.take(vs@.len() as int) =~= vs@);
    }
    words_to_le_bytes(&words)
}

/// Serializes an index buffer (32-bit indices) to its bytes.
pub fn index_buffer_bytes(indices: &Vec<u32>) -> (out: Vec<u8>)
    ensures
        out@ == words_le(indices@),
{
    words_to_le_bytes(indices)
}

/// One mesh: its geometry and the index of its material.
#[derive(Debug)]
pub struct Mesh {
    pub name: String,
    pub vertices: Vec<ModelVertex>,
    pub indices: Vec<u32>,
    pub num_elements: u32,
    pub material: usize,
}

/// A well-formed mesh: the material index is in range, the element count
/// is the index count, and every index references an existing vertex.
pub open spec fn mesh_wf(m: Mesh, num_materials: int) -> bool {
    &&& m.material < num_materials
    &&& m.num_elements == m.indices@.len()
    &&& forall|i: int| 0 <= i < m.indices@.len() ==> (#[trigger] m.indices@[i]) < m.vertices@.len()
}

/// One material: its decoded diffuse pixels, the texture made from them,
/// and the bind group binding that texture to the pipeline.
#[derive(Debug)]
pub struct Material {
    pub name: String,
    pub diffuse_texture: Texture,
    pub diffuse_pixels: RgbaPixels,
    pub bind_group: BindGroup,
}

/// A well-formed material: its bind group is exactly the pipeline's
/// texture layout, its pixels carry four bytes per pixel, and its
/// texture has the pixels' dimensions.
pub open spec fn material_wf(m: Material) -> bool {
    &&& m.bind_group.layout.entries@ == texture_layout_entries()
    &&& bind_group_wf(m.bind_group)
    &&& m.diffuse_pixels.wf()
    &&& m.diffuse_texture == color_texture_for(m.diffuse_pixels.width, m.diffuse_pixels.height)
}

/// An ordered set of meshes and the materials they reference.
#[derive(Debug)]
pub struct Model {
    pub meshes: Vec<Mesh>,
    pub materials: Vec<Material>,
}

/// The model invariant established by `load`.
pub open spec fn model_wf(m: Model) -> bool {
    &&& forall|i: int|
        0 <= i < m.meshes@.len() ==> mesh_wf(#[trigger] m.meshes@[i], m.materials@.len() as int)
    &&& forall|i: int| 0 <= i < m.materials@.len() ==> material_wf(#[trigger] m.materials@[i])
}

/// A parsed mesh as handed over by the asset-loading collaborator.
#[derive(Debug)]
pub struct RawMesh {
    pub name: String,
    pub vertices: Vec<ModelVertex>,
    pub indices: Vec<u32>,
    pub material: usize,
}

/// A parsed material: its name and its encoded diffuse image, if the
/// source had one.
#[derive(Debug)]
pub struct RawMaterial {
    pub name: String,
    pub diffuse_bytes: Option<Vec<u8>>,
}

/// A whole parsed model source.
#[derive(Debug)]
pub struct RawModel {
    pub meshes: Vec<RawMesh>,
    pub materials: Vec<RawMaterial>,
}

/// Why a load failed.  `AssetNotFound` is produced by the caller that
/// resolves names to sources; validation here produces the other two.
#[derive(Clone, Copy, Debug, PartialEq, Eq, Structural)]
pub enum LoadError {
    AssetNotFound,
    MalformedGeometry,
    UnsupportedMaterial,
}

/// A raw mesh's geometry is sound: material index in range, index count
/// expressible as u32, every index within the vertex array.
pub open spec fn raw_mesh_geometry_ok(m: RawMesh, num_materials: int) -> bool {
    &&& m.material < num_materials
    &&& m.indices@.len() <= 0xFFFF_FFFF
    &&& forall|i: int| 0 <= i < m.indices@.len() ==> (#[trigger] m.indices@[i]) < m.vertices@.len()
}

/// All geometry of a source is sound.
pub open spec fn geometry_ok(s: RawModel) -> bool {
    forall|i: int|
        0 <= i < s.meshes@.len() ==> raw_mesh_geometry_ok(
            #[trigger] s.meshes@[i],
            s.materials@.len() as int,
        )
}

/// A raw material is usable: it has a diffuse map and the decoder
/// accepts it.
pub open spec fn raw_material_ok(m: RawMaterial) -> bool {
    &&& m.diffuse_bytes is Some
    &&& decoded_rgba(m.diffuse_bytes.unwrap()@) is Some
}

/// All materials of a source are usable.
pub open spec fn materials_ok(s: RawModel) -> bool {
    forall|i: int| 0 <= i < s.materials@.len() ==> raw_material_ok(#[trigger] s.materials@[i])
}

/// A built mesh carries its source's data unchanged.
pub open spec fn mesh_from_source(mesh: Mesh, src: RawMesh) -> bool {
    &&& mesh.name@ == src.name@
    &&& mesh.vertices@ == src.vertices@
    &&& mesh.indices@ == src.indices@
    &&& mesh.num_elements == src.indices@.len()
    &&& mesh.material == src.material
}

/// A built material carries its source's name and exactly the pixels the
/// decoder yields for its diffuse bytes.
pub open spec fn material_from_source(mat: Material, src: RawMaterial) -> bool {
    &&& mat.name@ == src.name@
    &&& src.diffuse_bytes is Some
    &&& decoded_rgba(src.diffuse_bytes.unwrap()@) == Some(
        (mat.diffuse_pixels.width, mat.diffuse_pixels.height, mat.diffuse_pixels.data@),
    )
}

/// Checks one mesh's geometry.
fn check_mesh_geometry(m: &RawMesh, num_materials: usize) -> (ok: bool)
    ensures
        ok == raw_mesh_geometry_ok(*m, num_materials as int),
{
    if m.material >= num_materials {
        return false;
    }
    if m.indices.len() as u64 > 0xFFFF_FFFF {
        return false;
    }
    let mut i: usize = 0;
    while i < m.indices.len()
        invariant
            0 <= i <= m.indices@.len(),
            forall|j: int| 0 <= j < i ==> (#[trigger] m.indices@[j]) < m.vertices@.len(),
        decreases m.indices@.len() - i,
    {
        if m.indices[i] as usize >= m.vertices.len() {
            return false;
        }
        i = i + 1;
    }
    true
}

/// Loads a model from a parsed source against the pipeline's texture
/// bind-group layout.  Fails with `MalformedGeometry` exactly where some
/// mesh's geometry is unsound, and otherwise with `UnsupportedMaterial`
/// exactly where some material lacks a diffuse map or its bytes cannot
/// be decoded; on success the model invariant holds and every mesh and
/// material carries its source data unchanged.
#[verifier::loop_isolation(false)]
pub fn load(source: RawModel, layout: &BindGroupLayout) -> (r: Result<Model, LoadError>)
    requires
        layout.entries@ == texture_layout_entries(),
    ensures
        match r {
            Ok(m) => {
                &&& geometry_ok(source)
                &&& materials_ok(source)
                &&& model_wf(m)
                &&& m.meshes@.len() == source.meshes@.len()
                &&& m.materials@.len() == source.materials@.len()
                &&& forall|i: int|
                    0 <= i < m.meshes@.len() ==> mesh_from_source(
                        #[trigger] m.meshes@[i],
                        source.meshes@[i],
                    )
                &&& forall|i: int|
                    0 <= i < m.materials@.len() ==> material_from_source(
                        #[trigger] m.materials@[i],
                        source.materials@[i],
                    )
            },
            Err(LoadError::MalformedGeometry) => !geometry_ok(source),
            Err(LoadError::UnsupportedMaterial) => geometry_ok(source) && !materials_ok(source),
            Err(LoadError::AssetNotFound) => false,
        },
{
    let num_materials = source.materials.len();
    let mut i: usize = 0;
    while i < source.meshes.len()
        invariant
            0 <= i <= source.meshes@.len(),
            num_materials == source.materials@.len(),
            forall|j: int|
                0 <= j < i ==> raw_mesh_geometry_ok(
                    #[trigger] source.meshes@[j],
                    source.materials@.len() as int,
                ),
        decreases source.meshes@.len() - i,
    {
        if !check_mesh_geometry(&source.meshes[i], num_materials) {
            return Err(LoadError::MalformedGeometry);
        }
        i = i + 1;
    }
    let ghost src = source;
    let RawModel { meshes: mut raw_meshes, materials: mut raw_materials } = source;
    let mut materials: Vec<Material> = Vec::new();
    while raw_materials.len() > 0
        invariant
            materials@.len() + raw_materials@.len() == src.materials@.len(),
            raw_materials@ == src.materials@.skip(materials@.len() as int),
            forall|j: int|
                0 <= j < materials@.len() ==> material_from_source(
                    #[trigger] materials@[j],
                    src.materials@[j],
                ) && material_wf(materials@[j]),
        decreases raw_materials@.len(),
    {
        let ghost done = materials@.len() as int;
        let rmat = raw_materials.remove(0);
        proof {
            assert(rmat == src.materials@[done]);
            assert(raw_materials@ =~= src.materials@.skip(done + 1));
        }
        match rmat.diffuse_bytes {
            None => {
                proof {
                    assert(!raw_material_ok(src.materials@[done]));
                }
                return Err(LoadError::UnsupportedMaterial);
            },
            Some(bytes) => {
                match Texture::from_bytes(&bytes) {
                    Err(_) => {
                        proof {
                            assert(!raw_material_ok(src.materials@[done]));
                        }
                        return Err(LoadError::UnsupportedMaterial);
                    },
                    Ok((texture, pixels)) => {
                        let bind_group = create_texture_bind_group();
                        materials.push(
                            Material {
                                name: rmat.name,
                                diffuse_texture: texture,
                                diffuse_pixels: pixels,
                                bind_group,
                            },
                        );
                    },
                }
            },
        }
    }
    let mut meshes: Vec<Mesh> = Vec::new();
    while raw_meshes.len() > 0
        invariant
            meshes@.len() + raw_meshes@.len() == src.meshes@.len(),
            raw_meshes@ == src.meshes@.skip(meshes@.len() as int),
            geometry_ok(src),
            materials@.len() == src.materials@.len(),
            forall|j: int|
                0 <= j < meshes@.len() ==> mesh_from_source(
                    #[trigger] meshes@[j],
                    src.meshes@[j],
                ) && mesh_wf(meshes@[j], src.materials@.len() as int),
        decreases raw_meshes@.len(),
    {
        let ghost done = meshes@.len() as int;
        let rm = raw_meshes.remove(0);
        proof {
            assert(rm == src.meshes@[done]);
            assert(raw_meshes@ =~= src.meshes@.skip(done + 1));
            assert(raw_mesh_geometry_ok(src.meshes@[done], src.materials@.len() as int));
        }
        let num_elements = rm.indices.len() as u32;
        meshes.push(
            Mesh {
                name: rm.name,
                vertices: rm.vertices,
                indices: rm.indices,
                num_elements,
                material: rm.material,
            },
        );
    }
    proof {
        assert forall|j: int|
            0 <= j < src.materials@.len() implies raw_material_ok(#[trigger] src.materials@[j]) by {
            assert(material_from_source(materials@[j], src.materials@[j]));
        }
    }
    Ok(Model { meshes, materials })
}

} // verus!
