//! Standalone demo geometry: a small textured pentagon with a
//! two-attribute vertex (position and texture coordinates).
//!
//! The five vertices and nine indices are fixed data; their bit
//! patterns, the declared buffer layout and the in-range property of
//! every index are pinned down here.

use crate::pipeline::{VertexAttribute, VertexBufferLayout, VertexFormat, VertexStepMode};
use crate::wire::{words16_le, words16_to_le_bytes, words_le, words_to_le_bytes};
use vstd::prelude::*;

verus! {

/// One pentagon vertex: position and texture coordinates, as IEEE-754
/// bit patterns.
#[derive(Clone, Copy, Debug, PartialEq, Eq)]
pub struct Vertex {
    pub position: [u32; 3],
    pub tex_coords: [u32; 2],
}

/// The five words of one serialized pentagon vertex.
pub open spec fn vertex_words(v: Vertex) -> Seq<u32> {
    seq![v.position@[0], v.position@[1], v.position@[2], v.tex_coords@[0], v.tex_coords@[1]]
}

/// The words of a pentagon vertex buffer: five per vertex, in order.
pub open spec fn pentagon_vertices_words(s: Seq<Vertex>) -> Seq<u32> {
    Seq::new(5 * s.len(), |i: int| vertex_words(s[i / 5])[i % 5])
}

/// The 25 words of the pentagon's five vertices.
pub open spec fn pentagon_words() -> Seq<u32> {
    seq![
        0xbdb1d0d5u32, 0x3efc1c5cu32, 0u32, 0x3ed38bcbu32, 0x3bf8e90au32,
        0xbefd8236u32, 0x3d8e835au32, 0u32, 0x3b9f7280u32, 0x3edc5f2au32,
        0xbe607229u32, 0xbee6175fu32, 0u32, 0x3e8fc6ecu32, 0x3f730bafu32,
        0x3eb826aau32, 0xbeb1d51fu32, 0u32, 0x3f5c1355u32, 0x3f58ea90u32,
        0x3ee208d8u32, 0x3e705e9cu32, 0u32, 0x3f71046cu32, 0x3e87d0b2u32,
    ]
}

/// The pentagon's nine indices: three triangles fanning from vertex 4.
pub open spec fn pentagon_index_seq() -> Seq<u16> {
    seq![0u16, 1u16, 4u16, 1u16, 2u16, 4u16, 2u16, 3u16, 4u16]
}

/// Every pentagon index references one of the five vertices.
pub proof fn lemma_pentagon_indices_in_range()
    ensures
        forall|i: int| 0 <= i < pentagon_index_seq().len() ==> pentagon_index_seq()[i] < 5,
{
}

/// The declared pentagon layout agrees with the serialized buffer:
/// vertex `i` occupies words 5i..5i+5 (one 20-byte stride), position
/// first and texture coordinates at byte offset 12 (word 3).
pub proof fn lemma_pentagon_layout_matches(s: Seq<Vertex>, i: int)
    requires
        0 <= i < s.len(),
    ensures
        pentagon_vertices_words(s).subrange(5 * i, 5 * i + 5) == vertex_words(s[i]),
{
    let sub = pentagon_vertices_words(s).subrange(5 * i, 5 * i + 5);
    assert(5 * i + 5 <= 5 * s.len()) by (nonlinear_arith)
        requires
            0 <= i < s.len(),
    ;
    assert forall|w: int| 0 <= w < 5 implies sub[w] == vertex_words(s[i])[w] by {
        assert((5 * i + w) / 5 == i && (5 * i + w) % 5 == w) by (nonlinear_arith)
            requires
                0 <= i,
                0 <= w < 5,
        ;
    }
    assert(sub =~= vertex_words(s[i]));
}

impl Vertex {
    /// The declared layout of the pentagon vertex buffer: a 20-byte
    /// stride with position at offset 0 and texture coordinates at
    /// offset 12, feeding shader locations 0 and 1.
    pub fn desc() -> (l: VertexBufferLayout)
        ensures
            l.array_stride == 20,
            l.step_mode == VertexStepMode::Vertex,
            l.attributes@ == seq![
                VertexAttribute { offset: 0, shader_location: 0, format: VertexFormat::Float32x3 },
                VertexAttribute {
                    offset: 12,
                    shader_location: 1,
                    format: VertexFormat::Float32x2,
                },
            ],
    {
        let mut attributes: Vec<VertexAttribute> = Vec::new();
        attributes.push(
            VertexAttribute { offset: 0, shader_location: 0, format: VertexFormat::Float32x3 },
        );
        attributes.push(
            VertexAttribute { offset: 12, shader_location: 1, format: VertexFormat::Float32x2 },
        );
        proof {
            assert(attributes@ =~= seq![
                VertexAttribute { offset: 0, shader_location: 0, format: VertexFormat::Float32x3 },
                VertexAttribute {
                    offset: 12,
                    shader_location: 1,
                    format: VertexFormat::Float32x2,
                },
            ]);
        }
        VertexBufferLayout { array_stride: 20, step_mode: VertexStepMode::Vertex, attributes }
    }
}

/// The pentagon's vertices.
pub fn vertices() -> (r: Vec<Vertex>)
    ensures
        r@.len() == 5,
        pentagon_vertices_words(r@) == pentagon_words(),
{
    let mut r: Vec<Vertex> = Vec::new();
    r.push(
        Vertex {
            position: [0xbdb1d0d5, 0x3efc1c5c, 0],
            tex_coords: [0x3ed38bcb, 0x3bf8e90a],
        },
    );
    r.push(
        Vertex {
            position: [0xbefd8236, 0x3d8e835a, 0],
            tex_coords: [0x3b9f7280, 0x3edc5f2a],
        },
    );
    r.push(
        Vertex {
            position: [0xbe607229, 0xbee6175f, 0],
            tex_coords: [0x3e8fc6ec, 0x3f730baf],
        },
    );
    r.push(
        Vertex {
            position: [0x3eb826aa, 0xbeb1d51f, 0],
            tex_coords: [0x3f5c1355, 0x3f58ea90],
        },
    );
    r.push(
        Vertex {
            position: [0x3ee208d8, 0x3e705e9c, 0],
            tex_coords: [0x3f71046c, 0x3e87d0b2],
        },
    );
    proof {
        assert(pentagon_vertices_words(r@) =~= pentagon_words());
    }
    r
}

/// The pentagon's indices.
pub fn indices() -> (r: Vec<u16>)
    ensures
        r@ == pentagon_index_seq(),
{
    let mut r: Vec<u16> = Vec::new();
    r.push(0);
    r.push(1);
    r.push(4);
    r.push(1);
    r.push(2);
    r.push(4);
    r.push(2);
    r.push(3);
    r.push(4);
    proof {
        assert(r@ =~= pentagon_index_seq());
    }
    r
}

/// Serializes a pentagon vertex buffer to its bytes.
pub fn vertex_buffer_bytes(vs: &Vec<Vertex>) -> (out: Vec<u8>)
    ensures
        out@ == words_le(pentagon_vertices_words(vs@)),
{
    let mut words: Vec<u32> = Vec::new();
    let mut k: usize = 0;
    while k < vs.len()
        invariant
            0 <= k <= vs@.len(),
            words@ == pentagon_vertices_words(vs@.take(k as int)),
        decreases vs@.len() - k,
    {
        let v = vs[k];
        words.push(v.position[0]);
        words.push(v.position[1]);
        words.push(v.position[2]);
        words.push(v.tex_coords[0]);
        words.push(v.tex_coords[1]);
        proof {
            let prev = vs@.take(k as int);
            let lhs = pentagon_vertices_words(prev.push(vs@[k as int]));
            let rhs = pentagon_vertices_words(prev) + vertex_words(vs@[k as int]);
            assert forall|i: int| 0 <= i < lhs.len() implies lhs[i] == rhs[i] by {
                if i < 5 * prev.len() {
                    assert(i / 5 < prev.len()) by (nonlinear_arith)
                        requires
                            0 <= i < 5 * prev.len(),
                    ;
                    assert(prev.push(vs@[k as int])[i / 5] == prev[i / 5]);
                } else {
                    assert(i / 5 == prev.len() && i % 5 == i - 5 * prev.len())
                        by (nonlinear_arith)
                        requires
                            5 * prev.len() <= i < 5 * prev.len() + 5,
                    ;
                    assert(prev.push(vs@[k as int])[i / 5] == vs@[k as int]);
                }
            }
            assert(lhs =~= rhs);
            assert(words@ =~= rhs);
            assert(vs@.take(k + 1) =~= prev.push(vs@[k as int]));
        }
        k = k + 1;
    }
    proof {
        assert(vs@.take(vs@.len() as int) =~= vs@);
    }
    words_to_le_bytes(&words)
}

/// Serializes a 16-bit index buffer to its bytes.
pub fn index_buffer_bytes(ix: &Vec<u16>) -> (out: Vec<u8>)
    ensures
        out@ == words16_le(ix@),
{
    words16_to_le_bytes(ix)
}

} // verus!
