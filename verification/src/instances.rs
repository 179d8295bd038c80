//! The per-instance transform set: a deterministic square grid of
//! logical instances and its raw, GPU-ready matrix form.
//!
//! A grid cell's world position is an integer multiple of half the grid
//! spacing, so it is carried exactly as a pair of doubled (half-unit)
//! integer coordinates; the cell at the origin gets the identity rotation
//! (a zero axis cannot be normalised), every other cell is tilted about
//! its own position vector.  Turning a tilted rotation into a 3x3 matrix
//! is floating-point work done by the caller; the raw matrix layout, the
//! exact position bits and the ordering are proved here.

use crate::fbits::{half_bits, half_value_bits, lemma_half_value_bits_injective};
use crate::mat::{identity3_words, model_matrix_words, translation_words, F32_ONE_BITS};
use crate::pipeline::{VertexAttribute, VertexBufferLayout, VertexFormat, VertexStepMode};
use crate::wire::{words_le, words_to_le_bytes};
use vstd::prelude::*;

verus! {

/// How an instance is rotated.
#[derive(Clone, Copy, Debug, PartialEq, Eq, Structural)]
pub enum RotationKind {
    /// The cell at the origin: no rotation.
    Identity,
    /// A fixed-angle rotation about the instance's own position vector.
    TiltedAboutPosition,
}

/// One logical instance.  `px2` and `pz2` are the world x and z
/// coordinates in half-units: the position is (px2 / 2, 0, pz2 / 2).
#[derive(Clone, Copy, Debug, PartialEq, Eq, Structural)]
pub struct Instance {
    pub px2: i64,
    pub pz2: i64,
    pub rotation: RotationKind,
}

/// The doubled world coordinate of grid index `i` out of `n`:
/// spacing * (i - n/2), in half-units.
pub open spec fn doubled_coord(n: int, spacing: int, i: int) -> int {
    spacing * (2 * i - n)
}

/// The rotation a cell gets: identity exactly at the origin.
pub open spec fn grid_rotation(px2: int, pz2: int) -> RotationKind {
    if px2 == 0 && pz2 == 0 {
        RotationKind::Identity
    } else {
        RotationKind::TiltedAboutPosition
    }
}

/// The instance of grid cell (x, z).
pub open spec fn grid_instance(n: int, spacing: int, x: int, z: int) -> Instance {
    Instance {
        px2: doubled_coord(n, spacing, x) as i64,
        pz2: doubled_coord(n, spacing, z) as i64,
        rotation: grid_rotation(doubled_coord(n, spacing, x), doubled_coord(n, spacing, z)),
    }
}

/// The whole n-by-n grid, row by row: entry k is cell (k % n, k / n).
pub open spec fn grid(n: int, spacing: int) -> Seq<Instance> {
    Seq::new((n * n) as nat, |k: int| grid_instance(n, spacing, k % n, k / n))
}

/// The raw (uploaded) form of one instance: the sixteen words of its
/// model matrix.
#[derive(Clone, Copy, Debug, PartialEq, Eq)]
pub struct InstanceRaw {
    pub model: [u32; 16],
}

/// The four attributes of the instance buffer: one Float32x4 per matrix
/// vector, feeding shader locations 5 through 8.
pub open spec fn instance_raw_attributes() -> Seq<VertexAttribute> {
    seq![
        VertexAttribute { offset: 0, shader_location: 5, format: VertexFormat::Float32x4 },
        VertexAttribute { offset: 16, shader_location: 6, format: VertexFormat::Float32x4 },
        VertexAttribute { offset: 32, shader_location: 7, format: VertexFormat::Float32x4 },
        VertexAttribute { offset: 48, shader_location: 8, format: VertexFormat::Float32x4 },
    ]
}

impl InstanceRaw {
    /// The declared layout of the instance buffer: a 64-byte stride
    /// advancing per instance, four Float32x4 attributes at shader
    /// locations 5 through 8.
    pub fn desc() -> (l: VertexBufferLayout)
        ensures
            l.array_stride == 64,
            l.step_mode == VertexStepMode::Instance,
            l.attributes@ == instance_raw_attributes(),
    {
        let mut attributes: Vec<VertexAttribute> = Vec::new();
        attributes.push(
            VertexAttribute { offset: 0, shader_location: 5, format: VertexFormat::Float32x4 },
        );
        attributes.push(
            VertexAttribute { offset: 16, shader_location: 6, format: VertexFormat::Float32x4 },
        );
        attributes.push(
            VertexAttribute { offset: 32, shader_location: 7, format: VertexFormat::Float32x4 },
        );
        attributes.push(
            VertexAttribute { offset: 48, shader_location: 8, format: VertexFormat::Float32x4 },
        );
        proof {
            assert(attributes@ =~= instance_raw_attributes());
        }
        VertexBufferLayout { array_stride: 64, step_mode: VertexStepMode::Instance, attributes }
    }
}

/// The bit patterns of an instance's position (x, y, z); y is zero.
pub open spec fn instance_position_bits(inst: Instance) -> (u32, u32, u32) {
    (half_value_bits(inst.px2 as int), 0u32, half_value_bits(inst.pz2 as int))
}

/// The raw matrix words of one instance, given the nine words `lin` of
/// its rotation's linear block: translation ∘ rotation.  An
/// identity-rotation instance uses the identity block whatever `lin`
/// holds.
pub open spec fn raw_words_of(inst: Instance, lin: Seq<u32>) -> Seq<u32> {
    let p = instance_position_bits(inst);
    match inst.rotation {
        RotationKind::Identity => model_matrix_words(identity3_words(), p.0, p.1, p.2),
        RotationKind::TiltedAboutPosition => model_matrix_words(lin, p.0, p.1, p.2),
    }
}

/// A zero-rotation instance's raw matrix is a pure translation by the
/// instance's position.
pub proof fn lemma_identity_instance_is_translation(inst: Instance, lin: Seq<u32>)
    requires
        inst.rotation == RotationKind::Identity,
    ensures
        raw_words_of(inst, lin) == translation_words(
            instance_position_bits(inst).0,
            instance_position_bits(inst).1,
            instance_position_bits(inst).2,
        ),
{
}

impl Instance {
    /// Builds the raw matrix from this instance and the linear block of
    /// its rotation.
    pub fn to_raw(&self, lin: &[u32; 9]) -> (r: InstanceRaw)
        requires
            -0x100_0000 <= self.px2 <= 0x100_0000,
            -0x100_0000 <= self.pz2 <= 0x100_0000,
        ensures
            r.model@ == raw_words_of(*self, lin@),
    {
        let px = half_bits(self.px2);
        let pz = half_bits(self.pz2);
        match self.rotation {
            RotationKind::Identity => {
                let model: [u32; 16] = [
                    F32_ONE_BITS, 0, 0, 0,
                    0, F32_ONE_BITS, 0, 0,
                    0, 0, F32_ONE_BITS, 0,
                    px, 0, pz, F32_ONE_BITS,
                ];
                proof {
                    assert(model@ =~= raw_words_of(*self, lin@));
                }
                InstanceRaw { model }
            },
            RotationKind::TiltedAboutPosition => {
                let model: [u32; 16] = [
                    lin[0], lin[1], lin[2], 0,
                    lin[3], lin[4], lin[5], 0,
                    lin[6], lin[7], lin[8], 0,
                    px, 0, pz, F32_ONE_BITS,
                ];
                proof {
                    assert(model@ =~= raw_words_of(*self, lin@));
                }
                InstanceRaw { model }
            },
        }
    }
}

/// The instance set: the logical grid, kept with the parameters that
/// built it.
#[derive(Debug)]
pub struct InstanceSet {
    pub instances: Vec<Instance>,
    pub rows: u32,
    pub spacing: u32,
}

impl InstanceSet {
    /// Every coordinate is small enough to be encoded exactly.
    pub open spec fn wf(&self) -> bool {
        forall|k: int|
            0 <= k < self.instances@.len() ==> (-0x100_0000 <= #[trigger] self.instances@[k].px2
                <= 0x100_0000 && -0x100_0000 <= self.instances@[k].pz2 <= 0x100_0000)
    }

    /// Builds the n-by-n grid with the given spacing, row by row.  The
    /// result is a pure function of the parameters, so the mapping from
    /// instance index to grid cell is reproducible.
    pub fn build(rows: u32, spacing: u32) -> (s: InstanceSet)
        requires
            1 <= spacing,
            rows * spacing <= 0x100_0000,
        ensures
            s.rows == rows,
            s.spacing == spacing,
            s.instances@ == grid(rows as int, spacing as int),
            s.wf(),
    {
        let ghost n = rows as int;
        let ghost sp = spacing as int;
        let mut instances: Vec<Instance> = Vec::new();
        let mut z: u32 = 0;
        while z < rows
            invariant
                1 <= spacing,
                rows * spacing <= 0x100_0000,
                0 <= z <= rows,
                n == rows as int,
                sp == spacing as int,
                instances@.len() == z * rows,
                instances@ == grid(n, sp).take((z * rows) as int),
            decreases rows - z,
        {
            let mut x: u32 = 0;
            proof {
                assert(z * rows + rows <= rows * rows) by (nonlinear_arith)
                    requires
                        0 <= z < rows,
                ;
            }
            while x < rows
                invariant
                    1 <= spacing,
                    rows * spacing <= 0x100_0000,
                    0 <= x <= rows,
                    0 <= z < rows,
                    n == rows as int,
                    sp == spacing as int,
                    z * rows + rows <= rows * rows,
                    instances@.len() == z * rows + x,
                    instances@ == grid(n, sp).take((z * rows + x) as int),
                decreases rows - x,
            {
                proof {
                    assert(spacing * (2 * x - rows) <= spacing * rows && spacing * (2 * x - rows)
                        >= -(spacing * rows) && spacing * (2 * z - rows) <= spacing * rows
                        && spacing * (2 * z - rows) >= -(spacing * rows) && spacing * rows == rows
                        * spacing) by (nonlinear_arith)
                        requires
                            0 <= x < rows,
                            0 <= z < rows,
                            1 <= spacing,
                    ;
                }
                let px2: i64 = (spacing as i64) * (2 * (x as i64) - (rows as i64));
                let pz2: i64 = (spacing as i64) * (2 * (z as i64) - (rows as i64));
                let rotation = if px2 == 0 && pz2 == 0 {
                    RotationKind::Identity
                } else {
                    RotationKind::TiltedAboutPosition
                };
                let inst = Instance { px2, pz2, rotation };
                proof {
                    let k = (z * rows + x) as int;
                    assert(k % n == x as int && k / n == z as int) by (nonlinear_arith)
                        requires
                            n > 0,
                            0 <= x < n,
                            0 <= z,
                            k == z * n + x,
                    ;
                    assert(k < n * n) by (nonlinear_arith)
                        requires
                            0 <= x < n,
                            0 <= z < n,
                            k == z * n + x,
                    ;
                    assert(inst == grid(n, sp)[k]);
                    assert(instances@.push(inst) =~= grid(n, sp).take(k + 1));
                }
                instances.push(inst);
                x = x + 1;
            }
            z = z + 1;
            proof {
                assert(z * rows == (z - 1) * rows + rows) by (nonlinear_arith);
            }
        }
        proof {
            assert(grid(n, sp).take((rows * rows) as int) =~= grid(n, sp));
            assert forall|k: int| 0 <= k < grid(n, sp).len() implies (-0x100_0000
                <= #[trigger] grid(n, sp)[k].px2 <= 0x100_0000 && -0x100_0000 <= grid(
                n,
                sp,
            )[k].pz2 <= 0x100_0000) by {
                assert(0 <= k % n < n && 0 <= k / n < n) by (nonlinear_arith)
                    requires
                        n > 0,
                        0 <= k < n * n,
                ;
                assert(sp * (2 * (k % n) - n) <= sp * n && sp * (2 * (k % n) - n) >= -(sp * n)
                    && sp * (2 * (k / n) - n) <= sp * n && sp * (2 * (k / n) - n) >= -(sp * n))
                    by (nonlinear_arith)
                    requires
                        0 <= k % n < n,
                        0 <= k / n < n,
                        1 <= sp,
                ;
                assert(sp * n <= 0x100_0000);
            }
        }
        InstanceSet { instances, rows, spacing }
    }

    /// The raw matrix list, in instance order.  `tilts` supplies the
    /// linear block of each tilted instance's rotation; identity
    /// instances ignore their entry.
    pub fn to_raw(&self, tilts: &Vec<[u32; 9]>) -> (out: Vec<InstanceRaw>)
        requires
            self.wf(),
            tilts@.len() == self.instances@.len(),
        ensures
            out@.len() == self.instances@.len(),
            forall|k: int|
                0 <= k < out@.len() ==> #[trigger] out@[k].model@ == raw_words_of(
                    self.instances@[k],
                    tilts@[k]@,
                ),
    {
        let mut out: Vec<InstanceRaw> = Vec::new();
        let mut k: usize = 0;
        while k < self.instances.len()
            invariant
                self.wf(),
                tilts@.len() == self.instances@.len(),
                0 <= k <= self.instances@.len(),
                out@.len() == k,
                forall|j: int|
                    0 <= j < k ==> #[trigger] out@[j].model@ == raw_words_of(
                        self.instances@[j],
                        tilts@[j]@,
                    ),
            decreases self.instances@.len() - k,
        {
            out.push(self.instances[k].to_raw(&tilts[k]));
            k = k + 1;
        }
        out
    }
}

/// The bytes of the instance buffer: 64 bytes per instance, in order.
pub open spec fn raws_words(s: Seq<InstanceRaw>) -> Seq<u32> {
    Seq::new(16 * s.len(), |i: int| s[i / 16].model@[i % 16])
}

/// Appending one raw instance appends exactly its sixteen words.
pub proof fn lemma_raws_words_push(s: Seq<InstanceRaw>, r: InstanceRaw)
    ensures
        raws_words(s.push(r)) == raws_words(s) + r.model@,
{
    let lhs = raws_words(s.push(r));
    let rhs = raws_words(s) + r.model@;
    assert forall|i: int| 0 <= i < lhs.len() implies lhs[i] == rhs[i] by {
        if i < 16 * s.len() {
            assert(i / 16 < s.len()) by (nonlinear_arith)
                requires
                    0 <= i < 16 * s.len(),
            ;
            assert(s.push(r)[i / 16] == s[i / 16]);
        } else {
            assert(i / 16 == s.len() && i % 16 == i - 16 * s.len()) by (nonlinear_arith)
                requires
                    16 * s.len() <= i < 16 * s.len() + 16,
            ;
            assert(s.push(r)[i / 16] == r);
        }
    }
    assert(lhs =~= rhs);
}

/// Serializes the raw instance list to the bytes uploaded to the
/// instance buffer.
pub fn instance_buffer_bytes(raws: &Vec<InstanceRaw>) -> (out: Vec<u8>)
    ensures
        out@ == words_le(raws_words(raws@)),
{
    let mut words: Vec<u32> = Vec::new();
    let mut k: usize = 0;
    while k < raws.len()
        invariant
            0 <= k <= raws@.len(),
            words@ == raws_words(raws@.take(k as int)),
        decreases raws@.len() - k,
    {
        let mut j: usize = 0;
        while j < 16
            invariant
                0 <= j <= 16,
                0 <= k < raws@.len(),
                words@ == raws_words(raws@.take(k as int)) + raws@[k as int].model@.take(j as int),
            decreases 16 - j,
        {
            words.push(raws[k].model[j]);
            proof {
                assert(raws@[k as int].model@.take(j + 1) =~= raws@[k as int].model@.take(
                    j as int,
                ).push(raws@[k as int].model@[j as int]));
                assert(words@ =~= raws_words(raws@.take(k as int)) + raws@[k as int].model@.take(
                    j + 1,
                ));
            }
            j = j + 1;
        }
        proof {
            lemma_raws_words_push(raws@.take(k as int), raws@[k as int]);
            assert(raws@.take(k + 1) =~= raws@.take(k as int).push(raws@[k as int]));
            assert(raws@[k as int].model@.take(16) =~= raws@[k as int].model@);
        }
        k = k + 1;
    }
    proof {
        assert(raws@.take(raws@.len() as int) =~= raws@);
    }
    words_to_le_bytes(&words)
}

/// The declared instance-buffer layout agrees with the serialized
/// buffer: raw instance `i` occupies words 16i..16i+16 (one 64-byte
/// stride), and the four declared attributes sit at the byte offsets of
/// its four matrix vectors.
pub proof fn lemma_instance_raw_layout_matches(s: Seq<InstanceRaw>, i: int)
    requires
        0 <= i < s.len(),
    ensures
        raws_words(s).subrange(16 * i, 16 * i + 16) == s[i].model@,
        instance_raw_attributes()[0].offset == 4 * 0,
        instance_raw_attributes()[1].offset == 4 * 4,
        instance_raw_attributes()[2].offset == 4 * 8,
        instance_raw_attributes()[3].offset == 4 * 12,
{
    let sub = raws_words(s).subrange(16 * i, 16 * i + 16);
    assert(16 * i + 16 <= 16 * s.len()) by (nonlinear_arith)
        requires
            0 <= i < s.len(),
    ;
    assert forall|w: int| 0 <= w < 16 implies sub[w] == s[i].model@[w] by {
        assert((16 * i + w) / 16 == i && (16 * i + w) % 16 == w) by (nonlinear_arith)
            requires
                0 <= i,
                0 <= w < 16,
        ;
    }
    assert(sub =~= s[i].model@);
}

/// A grid entry's rotation is the identity exactly where its position
/// is the origin.
pub proof fn lemma_grid_identity_iff_origin(n: int, spacing: int, k: int)
    requires
        1 <= n,
        1 <= spacing,
        n * spacing <= 0x100_0000,
        0 <= k < n * n,
    ensures
        (grid(n, spacing)[k].rotation == RotationKind::Identity) <==> (grid(n, spacing)[k].px2
            == 0 && grid(n, spacing)[k].pz2 == 0),
{
    let x = k % n;
    let z = k / n;
    assert(0 <= x < n && 0 <= z < n) by (nonlinear_arith)
        requires
            n > 0,
            0 <= k < n * n,
            x == k % n,
            z == k / n,
    ;
    assert forall|i: int|
        0 <= i < n implies -0x100_0000 <= #[trigger] doubled_coord(n, spacing, i)
            <= 0x100_0000 by {
        assert(spacing * (2 * i - n) <= spacing * n && spacing * (2 * i - n) >= -(spacing * n))
            by (nonlinear_arith)
            requires
                0 <= i < n,
                1 <= spacing,
        ;
        assert(spacing * n == n * spacing) by (nonlinear_arith);
    }
    assert(doubled_coord(n, spacing, x) as i64 == doubled_coord(n, spacing, x));
    assert(doubled_coord(n, spacing, z) as i64 == doubled_coord(n, spacing, z));
}

/// Distinct grid cells occupy distinct positions (the grid-derived
/// position is injective in the cell, given a positive spacing).
pub proof fn lemma_grid_positions_unique(n: int, spacing: int, i: int, j: int)
    requires
        1 <= n,
        1 <= spacing,
        n * spacing <= 0x100_0000,
        0 <= i < n * n,
        0 <= j < n * n,
        i != j,
    ensures
        grid(n, spacing)[i].px2 != grid(n, spacing)[j].px2 || grid(n, spacing)[i].pz2 != grid(
            n,
            spacing,
        )[j].pz2,
{
    let xi = i % n;
    let zi = i / n;
    let xj = j % n;
    let zj = j / n;
    assert(n > 0);
    assert(0 <= xi < n && 0 <= zi < n && 0 <= xj < n && 0 <= zj < n) by (nonlinear_arith)
        requires
            n > 0,
            0 <= i < n * n,
            0 <= j < n * n,
            xi == i % n,
            zi == i / n,
            xj == j % n,
            zj == j / n,
    ;
    assert(i == zi * n + xi && j == zj * n + xj) by (nonlinear_arith)
        requires
            n > 0,
            xi == i % n,
            zi == i / n,
            xj == j % n,
            zj == j / n,
    ;
    assert(xi != xj || zi != zj);
    assert forall|x: int, y: int|
        0 <= x < n && 0 <= y < n && x != y implies doubled_coord(n, spacing, x) != doubled_coord(
        n,
        spacing,
        y,
    ) by {
        assert(spacing * (2 * x - n) != spacing * (2 * y - n)) by (nonlinear_arith)
            requires
                1 <= spacing,
                x != y,
        ;
    }
    assert forall|x: int|
        0 <= x < n implies -0x100_0000 <= #[trigger] doubled_coord(n, spacing, x)
            <= 0x100_0000 by {
        assert(spacing * (2 * x - n) <= spacing * n && spacing * (2 * x - n) >= -(spacing * n))
            by (nonlinear_arith)
            requires
                0 <= x < n,
                1 <= spacing,
        ;
        assert(spacing * n == n * spacing) by (nonlinear_arith);
    }
    if xi != xj {
        assert(grid(n, spacing)[i].px2 != grid(n, spacing)[j].px2);
    } else {
        assert(grid(n, spacing)[i].pz2 != grid(n, spacing)[j].pz2);
    }
}

/// Distinct grid cells upload distinct raw matrices, whatever linear
/// blocks their rotations get: the half-unit encoding is injective, so
/// the translation words already differ.
pub proof fn lemma_grid_raw_matrices_unique(
    n: int,
    spacing: int,
    i: int,
    j: int,
    lin_i: Seq<u32>,
    lin_j: Seq<u32>,
)
    requires
        1 <= n,
        1 <= spacing,
        n * spacing <= 0x100_0000,
        0 <= i < n * n,
        0 <= j < n * n,
        i != j,
    ensures
        raw_words_of(grid(n, spacing)[i], lin_i) != raw_words_of(grid(n, spacing)[j], lin_j),
{
    let gi = grid(n, spacing)[i];
    let gj = grid(n, spacing)[j];
    lemma_grid_positions_unique(n, spacing, i, j);
    assert forall|x: int|
        0 <= x < n implies -0x100_0000 <= #[trigger] doubled_coord(n, spacing, x)
            <= 0x100_0000 by {
        assert(spacing * (2 * x - n) <= spacing * n && spacing * (2 * x - n) >= -(spacing * n))
            by (nonlinear_arith)
            requires
                0 <= x < n,
                1 <= spacing,
        ;
        assert(spacing * n == n * spacing) by (nonlinear_arith);
    }
    assert(0 <= i % n < n && 0 <= i / n < n && 0 <= j % n < n && 0 <= j / n < n)
        by (nonlinear_arith)
        requires
            n > 0,
            0 <= i < n * n,
            0 <= j < n * n,
    ;
    if gi.px2 != gj.px2 {
        lemma_half_value_bits_injective(gi.px2 as int, gj.px2 as int);
        assert(raw_words_of(gi, lin_i)[12] != raw_words_of(gj, lin_j)[12]);
    } else {
        lemma_half_value_bits_injective(gi.pz2 as int, gj.pz2 as int);
        assert(raw_words_of(gi, lin_i)[14] != raw_words_of(gj, lin_j)[14]);
    }
}

} // verus!
