use render_core::fbits::half_bits;
use render_core::instances::{Instance, InstanceSet, RotationKind};
use render_core::mat::F32_ONE_BITS;
use std::collections::HashSet;
use cgmath::Matrix4;

#[test]
fn half_bits_matches_ieee_encoding() {
    for m in -2000i64..=2000i64 {
        let expected = ((m as f32) * 0.5f32).to_bits();
        assert_eq!(half_bits(m), expected, "m = {}", m);
    }
    assert_eq!(half_bits(0x100_0000), (8388608.0f32).to_bits());
    assert_eq!(half_bits(-0x100_0000), (-8388608.0f32).to_bits());
    assert_eq!(half_bits(0), 0u32);
}

#[test]
fn grid_10_by_3_has_100_unique_positions() {
    let set = InstanceSet::build(10, 3);
    assert_eq!(set.instances.len(), 100);
    let mut positions: HashSet<(i64, i64)> = HashSet::new();
    for inst in set.instances.iter() {
        assert!(positions.insert((inst.px2, inst.pz2)), "duplicate position");
    }
    assert_eq!(positions.len(), 100);
}

#[test]
fn grid_origin_entry_has_identity_rotation() {
    let set = InstanceSet::build(10, 3);
    // Entry (x, z) sits at index z * 10 + x; the cell at the origin is
    // x = z = 5.
    let center = &set.instances[5 * 10 + 5];
    assert_eq!(center.px2, 0);
    assert_eq!(center.pz2, 0);
    assert_eq!(center.rotation, RotationKind::Identity);
    for (k, inst) in set.instances.iter().enumerate() {
        if k == 55 {
            continue;
        }
        assert_eq!(inst.rotation, RotationKind::TiltedAboutPosition, "entry {}", k);
    }
}

#[test]
fn grid_2_by_1_matches_expected_cells() {
    // A 2x2 grid with spacing 1: positions x, z in {-1.0, 0.0}.
    let set = InstanceSet::build(2, 1);
    assert_eq!(set.instances.len(), 4);
    let expected: [(i64, i64); 4] = [(-2, -2), (0, -2), (-2, 0), (0, 0)];
    for (k, inst) in set.instances.iter().enumerate() {
        assert_eq!((inst.px2, inst.pz2), expected[k], "entry {}", k);
    }
    assert_eq!(set.instances[3].rotation, RotationKind::Identity);
    assert_eq!(set.instances[0].rotation, RotationKind::TiltedAboutPosition);
}

#[test]
fn to_raw_zero_rotation_is_pure_translation() {
    let inst = Instance { px2: 3, pz2: -2, rotation: RotationKind::Identity };
    let junk: [u32; 9] = [0xDEAD_BEEF; 9];
    let raw = inst.to_raw(&junk);
    let px = (1.5f32).to_bits();
    let pz = (-1.0f32).to_bits();
    let one = (1.0f32).to_bits();
    assert_eq!(one, F32_ONE_BITS);
    let expected: [u32; 16] = [
        one, 0, 0, 0,
        0, one, 0, 0,
        0, 0, one, 0,
        px, 0, pz, one,
    ];
    assert_eq!(raw.model, expected);
}

#[test]
fn to_raw_is_order_preserving_and_uses_tilts() {
    let set = InstanceSet::build(2, 1);
    let mut tilts: Vec<[u32; 9]> = Vec::new();
    for k in 0..4u32 {
        tilts.push([k + 1; 9]);
    }
    let raws = set.to_raw(&tilts);
    assert_eq!(raws.len(), 4);
    for k in 0..4usize {
        let inst = &set.instances[k];
        let raw = &raws[k];
        // Translation words 12..14 carry this instance's position.
        assert_eq!(raw.model[12], ((inst.px2 as f32) * 0.5).to_bits());
        assert_eq!(raw.model[13], 0);
        assert_eq!(raw.model[14], ((inst.pz2 as f32) * 0.5).to_bits());
        assert_eq!(raw.model[15], F32_ONE_BITS);
        if inst.rotation == RotationKind::TiltedAboutPosition {
            // The linear block is the supplied tilt for this index.
            assert_eq!(raw.model[0], (k as u32) + 1);
            assert_eq!(raw.model[5], (k as u32) + 1);
        } else {
            assert_eq!(raw.model[0], F32_ONE_BITS);
            assert_eq!(raw.model[1], 0);
        }
        // The w component of each linear row is zero.
        assert_eq!(raw.model[3], 0);
        assert_eq!(raw.model[7], 0);
        assert_eq!(raw.model[11], 0);
    }
}

#[test]
fn to_raw_matrix_matches_cgmath_translation() {
    let inst = Instance { px2: 7, pz2: 12, rotation: RotationKind::Identity };
    let raw = inst.to_raw(&[0; 9]);
    let m = Matrix4::from_translation(cgmath::Vector3::new(3.5f32, 0.0, 6.0));
    let cols: [[f32; 4]; 4] = m.into();
    let mut expected = [0u32; 16];
    for c in 0..4 {
        for r in 0..4 {
            expected[4 * c + r] = cols[c][r].to_bits();
        }
    }
    assert_eq!(raw.model, expected);
}

#[test]
fn instance_buffer_bytes_are_little_endian_words() {
    let inst = Instance { px2: 2, pz2: 4, rotation: RotationKind::Identity };
    let raws = vec![inst.to_raw(&[0; 9])];
    let bytes = render_core::instances::instance_buffer_bytes(&raws);
    assert_eq!(bytes.len(), 64);
    // Word 0 is one: 0x3F800000 little-endian.
    assert_eq!(&bytes[0..4], &[0x00, 0x00, 0x80, 0x3F]);
    // Word 12 is the x translation, 1.0.
    assert_eq!(&bytes[48..52], &[0x00, 0x00, 0x80, 0x3F]);
    // Word 14 is the z translation, 2.0.
    assert_eq!(&bytes[56..60], &[0x00, 0x00, 0x00, 0x40]);
}

#[test]
fn empty_grid_has_no_instances() {
    let set = InstanceSet::build(0, 1);
    assert_eq!(set.instances.len(), 0);
    let raws = set.to_raw(&Vec::new());
    assert_eq!(raws.len(), 0);
    assert_eq!(render_core::instances::instance_buffer_bytes(&raws).len(), 0);
}
